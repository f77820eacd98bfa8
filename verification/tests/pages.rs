use webr::app_state::{AppState, AppStateBuilder};
use webr::date::Date;
use webr::markdown::{extract_metadata, parse_metadata, render_markdown, Error};
use webr::templates::{join_texts, PageTemplate};
use webr::utils::DirEntry;
use webr::{
    error_page_content, error_reply, Metadata, ERROR_PAGE, FALLBACK_ERROR, INTERNAL_SERVER_ERROR,
    OK, SITE_TITLE,
};

const TABLES: u32 = 1 << 1;
const STRIKETHROUGH: u32 = 1 << 3;

#[test]
fn default_metadata_has_the_title_of_the_site() {
    let metadata = Metadata::default();
    assert_eq!(metadata.title, "Daniel's Website");
    assert_eq!(metadata.title, SITE_TITLE);
    assert_eq!(metadata.tags, None);
}

#[test]
fn page_without_frontmatter_gets_the_default_title() {
    let page = render_markdown("# Hello\n\nSome *text*.\n", 0);
    assert_eq!(page.content, "<h1>Hello</h1>\n<p>Some <em>text</em>.</p>\n");
    assert_eq!(page.metadata.title, "Daniel's Website");
    assert_eq!(page.metadata.tags, None);
    assert!(matches!(page.warning, Some(Error::Frontmatter)));
}

#[test]
fn empty_page_gets_the_default_title() {
    let page = render_markdown("", 0);
    assert_eq!(page.content, "");
    assert_eq!(page.metadata.title, "Daniel's Website");
    assert_eq!(page.metadata.tags, None);
    assert!(matches!(page.warning, Some(Error::Frontmatter)));
}

#[test]
fn page_with_frontmatter_has_its_title_and_tags() {
    let source = "```toml\ntitle = \"My Page\"\ntags = [\"rust\", \"web\"]\n```\n\n# Heading\n\nBody\n";
    let page = render_markdown(source, 0);
    assert_eq!(page.content, "<h1>Heading</h1>\n<p>Body</p>\n");
    assert_eq!(page.metadata.title, "My Page");
    assert_eq!(page.metadata.tags, Some(vec!["rust".to_string(), "web".to_string()]));
    assert!(page.warning.is_none());
}

#[test]
fn page_with_frontmatter_without_tags() {
    let page = render_markdown("```toml\ntitle = \"Plain\"\n```\n\nBody\n", 0);
    assert_eq!(page.content, "<p>Body</p>\n");
    assert_eq!(page.metadata.title, "Plain");
    assert_eq!(page.metadata.tags, None);
    assert!(page.warning.is_none());
}

#[test]
fn code_block_after_other_content_is_no_frontmatter() {
    let page = render_markdown("Intro\n\n```toml\ntitle = \"Late\"\n```\n", 0);
    assert_eq!(page.metadata.title, "Daniel's Website");
    assert!(matches!(page.warning, Some(Error::Frontmatter)));
    assert!(page.content.contains("<p>Intro</p>"));
    assert!(page.content.contains("<code"));
}

#[test]
fn page_with_broken_frontmatter_is_rendered_all_the_same() {
    let page = render_markdown("```toml\nthis is not toml\n```\n\nBody\n", 0);
    assert_eq!(page.content, "<p>Body</p>\n");
    assert_eq!(page.metadata.title, "Daniel's Website");
    assert_eq!(page.metadata.tags, None);
    assert!(matches!(page.warning, Some(Error::TOML(_))));
}

#[test]
fn parser_options_are_handed_on() {
    assert_eq!(render_markdown("~~gone~~\n", 0).content, "<p>~~gone~~</p>\n");
    assert_eq!(
        render_markdown("~~gone~~\n", STRIKETHROUGH).content,
        "<p><del>gone</del></p>\n"
    );
    let table = "| a |\n|---|\n| b |\n";
    assert!(!render_markdown(table, 0).content.contains("<table>"));
    assert!(render_markdown(table, TABLES).content.contains("<table>"));
    assert!(render_markdown(table, u32::MAX).content.contains("<table>"));
}

#[test]
fn metadata_is_read_from_toml() {
    let metadata = parse_metadata("title = \"A\"\ntags = [\"x\", \"y\", \"x\"]\n").unwrap();
    assert_eq!(metadata.title, "A");
    assert_eq!(
        metadata.tags,
        Some(vec!["x".to_string(), "y".to_string(), "x".to_string()])
    );
    let metadata = parse_metadata("tags = []\ntitle = \"A\"").unwrap();
    assert_eq!(metadata.tags, Some(Vec::new()));
    let metadata = parse_metadata("title = \"\"").unwrap();
    assert_eq!(metadata.title, "");
    assert_eq!(metadata.tags, None);
}

#[test]
fn entries_under_other_names_say_nothing() {
    let metadata =
        parse_metadata("title = \"A\"\ncreated = 2024-03-31\n[extra]\ntags = [\"no\"]\n").unwrap();
    assert_eq!(metadata.title, "A");
    assert_eq!(metadata.tags, None);
}

#[test]
fn metadata_needs_a_title() {
    let error = parse_metadata("tags = [\"x\"]").unwrap_err();
    assert!(matches!(&error, Error::TOML(_)));
    assert_eq!(error.message(), "missing or invalid field `title`");
    assert!(matches!(parse_metadata("").unwrap_err(), Error::TOML(_)));
    assert!(matches!(parse_metadata("title = 1").unwrap_err(), Error::TOML(_)));
    assert!(matches!(parse_metadata("[title]\na = 1").unwrap_err(), Error::TOML(_)));
}

#[test]
fn tags_have_to_be_strings() {
    let error = parse_metadata("title = \"A\"\ntags = \"x\"").unwrap_err();
    assert_eq!(error.message(), "invalid field `tags`");
    assert!(matches!(parse_metadata("title = \"A\"\ntags = [1, 2]").unwrap_err(), Error::TOML(_)));
    assert!(matches!(
        parse_metadata("title = \"A\"\ntags = [\"x\", 2]").unwrap_err(),
        Error::TOML(_)
    ));
}

#[test]
fn broken_toml_is_an_error_in_the_words_of_the_parser() {
    let error = parse_metadata("title = ").unwrap_err();
    assert!(matches!(&error, Error::TOML(reason) if !reason.is_empty()));
    assert!(error.message().contains("TOML parse error"));
    assert!(matches!(
        parse_metadata("title = \"A\"\ntitle = \"B\"").unwrap_err(),
        Error::TOML(_)
    ));
}

#[test]
fn missing_frontmatter_is_an_error_of_its_own() {
    let error = extract_metadata(None).unwrap_err();
    assert!(matches!(error, Error::Frontmatter));
    assert_eq!(error.message(), "No frontmatter found");
    assert_eq!(extract_metadata(Some("title = \"A\"")).unwrap().title, "A");
    assert!(matches!(extract_metadata(Some("")).unwrap_err(), Error::TOML(_)));
}

fn root() -> Vec<DirEntry> {
    vec![
        DirEntry { path: "site/blog".to_string(), is_dir: Ok(true) },
        DirEntry { path: "site/.git".to_string(), is_dir: Ok(true) },
        DirEntry { path: "site/index.md".to_string(), is_dir: Ok(false) },
    ]
}

#[test]
fn page_is_built_from_its_parts() {
    let page = PageTemplate::builder()
        .title("About")
        .last_modified(Date { year: 2024, ordinal: 91 })
        .tags(vec!["rust".to_string(), "web".to_string()])
        .build(&root(), "<p>Hello</p>");
    assert_eq!(page.title, "About");
    assert_eq!(page.content, "<p>Hello</p>");
    assert_eq!(
        page.last_modified,
        "<p class=\"last_modified\">Last updated: 2024-03-31</p>"
    );
    assert_eq!(page.tags, "<p class=\"tags\">rust \u{c2}\u{b7} web</p>");
    assert_eq!(
        page.nav,
        "<li><a href=\"/\">Home</a></li><li><a href=\"/blog\">Blog</a></li>"
    );
}

#[test]
fn page_without_date_and_tags_shows_neither() {
    let page = PageTemplate::builder().title("Bare").build(&Vec::new(), "");
    assert_eq!(page.title, "Bare");
    assert_eq!(page.content, "");
    assert_eq!(page.last_modified, "");
    assert_eq!(page.tags, "");
    assert_eq!(page.nav, "<li><a href=\"/\">Home</a></li>");
}

#[test]
fn page_with_a_date_that_is_no_day_shows_none() {
    let page = PageTemplate::builder()
        .last_modified(Date { year: 2023, ordinal: 366 })
        .title("Odd")
        .build(&Vec::new(), "x");
    assert_eq!(page.last_modified, "");
}

#[test]
fn optional_tags_are_taken_where_there_are_any() {
    let page = PageTemplate::builder()
        .title("T")
        .tags_opt(Some(vec!["one".to_string()]))
        .build(&Vec::new(), "");
    assert_eq!(page.tags, "<p class=\"tags\">one</p>");
    let page = PageTemplate::builder().title("T").tags_opt(None).build(&Vec::new(), "");
    assert_eq!(page.tags, "");
    let page = PageTemplate::builder()
        .tags(vec!["kept".to_string()])
        .tags_opt(None)
        .title("T")
        .build(&Vec::new(), "");
    assert_eq!(page.tags, "<p class=\"tags\">kept</p>");
    let page = PageTemplate::builder().title("T").tags(Vec::new()).build(&Vec::new(), "");
    assert_eq!(page.tags, "<p class=\"tags\"></p>");
}

#[test]
fn texts_are_joined_with_a_separator_between_them() {
    let items = vec!["a".to_string(), "b".to_string(), "c".to_string()];
    assert_eq!(join_texts(&items, ", "), "a, b, c");
    assert_eq!(join_texts(&items, ""), "abc");
    assert_eq!(join_texts(&vec!["a".to_string()], ", "), "a");
    assert_eq!(join_texts(&Vec::new(), ", "), "");
    assert_eq!(join_texts(&vec![String::new(), String::new()], "-"), "-");
}

#[test]
fn state_is_built_from_root_and_port() {
    let state = AppState::builder().root("/srv/www").port(8080).md_options(42).build();
    assert_eq!(state.root, "/srv/www");
    assert_eq!(state.port, 8080);
    assert_eq!(state.md_options, 42);
    let state = AppStateBuilder::new().port(80).root("site").build();
    assert_eq!(state.root, "site");
    assert_eq!(state.port, 80);
    assert_eq!(state.md_options, 0);
    let state = AppStateBuilder::new().md_options(1).md_options(2).port(1).root("").build();
    assert_eq!(state.md_options, 2);
    assert_eq!(state.root, "");
}

#[test]
fn error_page_tells_of_the_error() {
    let content = error_page_content("No such file or directory");
    assert!(content.starts_with("<h1>Oops!</h1>"));
    assert!(content.ends_with("<p>Error: No such file or directory</p>"));
    assert_eq!(content, format!("{}<p>Error: No such file or directory</p>", ERROR_PAGE));
    assert_eq!(error_page_content(""), format!("{}<p>Error: </p>", ERROR_PAGE));
}

#[test]
fn error_page_is_sent_where_it_could_be_rendered() {
    let reply = error_reply(Some("<html>sorry</html>".to_string()));
    assert_eq!(reply.status, OK);
    assert_eq!(reply.status, 200);
    assert_eq!(reply.body, "<html>sorry</html>");
}

#[test]
fn fallback_page_is_sent_where_nothing_could_be_rendered() {
    let reply = error_reply(None);
    assert_eq!(reply.status, INTERNAL_SERVER_ERROR);
    assert_eq!(reply.status, 500);
    assert_eq!(reply.body, FALLBACK_ERROR);
    assert!(reply.body.starts_with("<!doctype html>"));
    assert!(reply.body.contains("<h1>Fatal Error</h1>"));
}

#[test]
fn errors_in_words() {
    assert_eq!(webr::error::Error::Generic("oops".to_string()).message(), "Generic oops");
    assert_eq!(webr::error::Error::IO("not found".to_string()).message(), "not found");
    assert_eq!(webr::error::Error::TokioJoinError("cancelled".to_string()).message(), "cancelled");
    assert_eq!(webr::error::Error::Axum("bad header".to_string()).message(), "bad header");
    assert_eq!(
        webr::error::Error::Nav(webr::utils::Error::FileName("a/..".to_string())).message(),
        "Could not get file name of a/.."
    );
    assert_eq!(webr::error::Error::Markdown(Error::Frontmatter).message(), "No frontmatter found");
    assert_eq!(
        webr::error::Error::Markdown(Error::TOML("bad".to_string())).message(),
        "bad"
    );
    let easter = webr::lectionary::easter(10_000).unwrap_err();
    assert_eq!(webr::error::Error::Lectionary(easter).message(), "Failed to calculate date of Easter");
    assert_eq!(webr::error::Error::Generic(String::new()).status(), 404);
}
