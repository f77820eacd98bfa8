use webr::utils::path::{extension, file_name, join, strip_prefix, with_extension, PathExt};
use webr::{normalize_path, path_and_query, request_path, resolve, PathAndQuery, ResolvedTarget};

fn normal(path: &str, query: Option<&str>) -> (String, Option<String>) {
    let target = PathAndQuery { path: path.to_string(), query: query.map(String::from) };
    let normal = normalize_path(target);
    (normal.path, normal.query)
}

fn normal_path(path: &str) -> String {
    normal(path, None).0
}

#[test]
fn root_path_is_unchanged() {
    assert_eq!(normal_path("/"), "/");
    assert_eq!(normal("/", Some("a=1")), ("/".to_string(), Some("a=1".to_string())));
}

#[test]
fn trailing_slashes_are_stripped() {
    assert_eq!(normal_path("/blog/"), "/blog");
    assert_eq!(normal_path("/blog///"), "/blog");
    assert_eq!(normal_path("/a/b/c/"), "/a/b/c");
    assert_eq!(normal_path("/a//b/"), "/a//b");
}

#[test]
fn doubled_leading_slashes_are_stripped() {
    assert_eq!(normal_path("//blog"), "/blog");
    assert_eq!(normal_path("///blog//"), "/blog");
    assert_eq!(normal_path("//"), "/");
    assert_eq!(normal_path("////"), "/");
}

#[test]
fn paths_in_normal_form_are_unchanged() {
    assert_eq!(normal_path("/blog"), "/blog");
    assert_eq!(normal_path("/a/b.md"), "/a/b.md");
    assert_eq!(normal_path(""), "");
    assert_eq!(normal_path("blog"), "blog");
    assert_eq!(normal_path("/a//b"), "/a//b");
}

#[test]
fn paths_without_a_leading_slash_get_one_when_trimmed() {
    assert_eq!(normal_path("blog/"), "/blog");
}

#[test]
fn query_is_preserved() {
    assert_eq!(
        normal("/blog/", Some("page=2&sort=name")),
        ("/blog".to_string(), Some("page=2&sort=name".to_string()))
    );
    assert_eq!(normal("/blog/", Some("")), ("/blog".to_string(), Some(String::new())));
    assert_eq!(normal("/blog", Some("q=/a/")), ("/blog".to_string(), Some("q=/a/".to_string())));
}

#[test]
fn normalizing_twice_changes_nothing() {
    for path in [
        "", "/", "//", "///", "/a", "/a/", "//a", "//a//", "a/", "a", "/a//b/", "/a/b/c///",
        "/\u{e9}t\u{e9}/", "/ /", "/./", "/../",
    ] {
        for query in [None, Some("x=1"), Some("")] {
            let once = normal(path, query);
            let twice = normal(&once.0, once.1.as_deref());
            assert_eq!(once, twice, "for {:?}", path);
            assert_eq!(once.1.as_deref(), query);
            assert!(once.0 == "/" || !once.0.ends_with('/'));
        }
    }
}

#[test]
fn path_is_written_with_its_query() {
    let target = PathAndQuery { path: "/blog".to_string(), query: Some("page=2".to_string()) };
    assert_eq!(path_and_query(&target), "/blog?page=2");
    let target = PathAndQuery { path: "/blog".to_string(), query: None };
    assert_eq!(path_and_query(&target), "/blog");
    let target = PathAndQuery { path: "/".to_string(), query: Some(String::new()) };
    assert_eq!(path_and_query(&target), "/?");
}

#[test]
fn file_root_is_the_name_up_to_its_first_dot() {
    assert_eq!("my-notes.md".file_root(), Some("my-notes"));
    assert_eq!("a/b/photo.md".file_root(), Some("photo"));
    assert_eq!("archive.tar.gz".file_root(), Some("archive"));
    assert_eq!("noext".file_root(), Some("noext"));
    assert_eq!("dir/".file_root(), Some("dir"));
    assert_eq!("a/.".file_root(), Some("a"));
    assert_eq!(".secret.md".file_root(), Some(""));
    assert_eq!("/srv/www/\u{e9}t\u{e9}.md".file_root(), Some("\u{e9}t\u{e9}"));
}

#[test]
fn file_root_needs_a_name() {
    assert_eq!("".file_root(), None);
    assert_eq!("/".file_root(), None);
    assert_eq!(".".file_root(), None);
    assert_eq!("..".file_root(), None);
    assert_eq!("a/..".file_root(), None);
    assert_eq!("./".file_root(), None);
}

#[test]
fn hidden_names_begin_with_a_dot() {
    assert_eq!(".secret.md".is_hidden(), Some(true));
    assert_eq!("a/.hidden".is_hidden(), Some(true));
    assert_eq!("a/.hidden/".is_hidden(), Some(true));
    assert_eq!("...".is_hidden(), Some(true));
    assert_eq!("a/b".is_hidden(), Some(false));
    assert_eq!(".a/b".is_hidden(), Some(false));
    assert_eq!("a.b".is_hidden(), Some(false));
    assert_eq!("".is_hidden(), None);
    assert_eq!("..".is_hidden(), None);
    assert_eq!("/".is_hidden(), None);
}

#[test]
fn file_name_is_the_last_component() {
    assert_eq!(file_name("a/b/c.md"), Some("c.md"));
    assert_eq!(file_name("a/b/"), Some("b"));
    assert_eq!(file_name("a//b//"), Some("b"));
    assert_eq!(file_name("a/./"), Some("a"));
    assert_eq!(file_name("a/b/."), Some("b"));
    assert_eq!(file_name("c"), Some("c"));
    assert_eq!(file_name("/"), None);
    assert_eq!(file_name("/."), None);
    assert_eq!(file_name(""), None);
    assert_eq!(file_name("a/.."), None);
    assert_eq!(file_name("./."), None);
}

#[test]
fn extension_follows_the_last_dot() {
    assert_eq!(extension("a.md"), Some("md"));
    assert_eq!(extension("a.tar.gz"), Some("gz"));
    assert_eq!(extension("dir/a.webp"), Some("webp"));
    assert_eq!(extension("a.md/"), Some("md"));
    assert_eq!(extension(".a.b"), Some("b"));
    assert_eq!(extension("a."), Some(""));
    assert_eq!(extension("a"), None);
    assert_eq!(extension(".bashrc"), None);
    assert_eq!(extension("dir.d/file"), None);
    assert_eq!(extension(""), None);
    assert_eq!(extension(".."), None);
}

#[test]
fn extension_is_replaced_or_added() {
    assert_eq!(with_extension("photo.md", "webp"), "photo.webp");
    assert_eq!(with_extension("gallery/photo.md", "webp"), "gallery/photo.webp");
    assert_eq!(with_extension("a.b.md", "webp"), "a.b.webp");
    assert_eq!(with_extension("a/b", "md"), "a/b.md");
    assert_eq!(with_extension("a/b/", "md"), "a/b.md");
    assert_eq!(with_extension(".bashrc", "md"), ".bashrc.md");
    assert_eq!(with_extension("a.b.md", ""), "a.b");
    assert_eq!(with_extension("photo", ""), "photo");
    assert_eq!(with_extension("a.", "md"), "a.md");
}

#[test]
fn path_without_a_name_keeps_no_extension() {
    assert_eq!(with_extension("", "md"), "");
    assert_eq!(with_extension("..", "md"), "..");
    assert_eq!(with_extension("/", "md"), "/");
}

#[test]
fn paths_are_joined_with_one_separator() {
    assert_eq!(join("a", "b"), "a/b");
    assert_eq!(join("a/", "b"), "a/b");
    assert_eq!(join("", "a"), "a");
    assert_eq!(join("a", ""), "a/");
    assert_eq!(join("", ""), "");
    assert_eq!(join("a", "/b"), "/b");
    assert_eq!(join("/srv/www", "gallery/photo.md"), "/srv/www/gallery/photo.md");
}

#[test]
fn prefix_is_stripped_by_components() {
    assert_eq!(strip_prefix("content/a/b.md", "content"), Some("a/b.md"));
    assert_eq!(strip_prefix("content/a", "content/"), Some("a"));
    assert_eq!(strip_prefix("content//a", "content"), Some("a"));
    assert_eq!(strip_prefix("content", "content"), Some(""));
    assert_eq!(strip_prefix("content/", "content"), Some(""));
    assert_eq!(strip_prefix("a/b", ""), Some("a/b"));
    assert_eq!(strip_prefix("/a", "/"), Some("a"));
    assert_eq!(strip_prefix("/srv/www/x.md", "/srv/www"), Some("x.md"));
}

#[test]
fn prefix_that_is_none_is_not_stripped() {
    assert_eq!(strip_prefix("contents/a", "content"), None);
    assert_eq!(strip_prefix("a", "/"), None);
    assert_eq!(strip_prefix("", "/"), None);
    assert_eq!(strip_prefix("other/a", "content"), None);
    assert_eq!(strip_prefix("con", "content"), None);
}

#[test]
fn request_path_lies_below_the_root() {
    assert_eq!(request_path("/"), "");
    assert_eq!(request_path("/blog"), "blog");
    assert_eq!(request_path("/a/b.md"), "a/b.md");
    assert_eq!(request_path("blog"), "blog");
    assert_eq!(request_path("//blog/"), "blog/");
    assert_eq!(request_path(""), "");
}

fn resolved(path: &str, is_dir: bool) -> (&'static str, String) {
    match resolve(path, is_dir) {
        ResolvedTarget::Directory(path) => ("directory", path),
        ResolvedTarget::MarkdownDocument(path) => ("markdown", path),
        ResolvedTarget::StaticFile(path) => ("file", path),
    }
}

#[test]
fn directories_are_listed() {
    assert_eq!(resolved("blog", true), ("directory", "blog".to_string()));
    assert_eq!(resolved("", true), ("directory", String::new()));
    assert_eq!(resolved("photos.d", true), ("directory", "photos.d".to_string()));
}

#[test]
fn paths_without_extension_stand_for_markdown_files() {
    assert_eq!(resolved("about", false), ("markdown", "about.md".to_string()));
    assert_eq!(resolved("blog/first-post", false), ("markdown", "blog/first-post.md".to_string()));
    assert_eq!(resolved(".hidden", false), ("markdown", ".hidden.md".to_string()));
    assert_eq!(resolved("", false), ("markdown", String::new()));
}

#[test]
fn paths_with_extension_stand_for_files() {
    assert_eq!(resolved("style.css", false), ("file", "style.css".to_string()));
    assert_eq!(resolved("gallery/photo.webp", false), ("file", "gallery/photo.webp".to_string()));
    assert_eq!(resolved("about.md", false), ("file", "about.md".to_string()));
}
