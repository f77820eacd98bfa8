use webr::markdown::{
    dir_paths, dir_title, filter_files, format_image_link, format_links, get_paths,
    join_fragments, listing_item, render_dir, Error, Paths, PicGridTemplate,
};
use webr::utils::html;
use webr::utils::iterator::PartitionResult;
use webr::utils::order::{compare_names, sort_by_name, Order};
use webr::utils::{
    display_name, format_link, format_links_of, has_markdown_extension, is_shown,
    is_shown_dir_only, nav, nav_entries, same_text, to_display_and_fname, DirEntry,
};

fn dir(path: &str) -> DirEntry {
    DirEntry { path: path.to_string(), is_dir: Ok(true) }
}

fn file(path: &str) -> DirEntry {
    DirEntry { path: path.to_string(), is_dir: Ok(false) }
}

fn unreadable(path: &str) -> DirEntry {
    DirEntry { path: path.to_string(), is_dir: Err("permission denied".to_string()) }
}

fn named(names: &[&str]) -> Vec<(String, String)> {
    names.iter().map(|name| (name.to_string(), format!("<{}>", name))).collect()
}

fn names_of(items: &[(String, String)]) -> Vec<&str> {
    items.iter().map(|item| item.0.as_str()).collect()
}

#[test]
fn display_names_are_in_title_case() {
    assert_eq!(display_name("my-notes"), "My Notes");
    assert_eq!(display_name("photo"), "Photo");
    assert_eq!(display_name("about_me"), "About Me");
    assert_eq!(display_name("2020-04-16_my_cat_cali"), "2020 04 16 My Cat Cali");
    assert_eq!(display_name(""), "");
}

#[test]
fn natural_order_compares_numbers_by_value() {
    let sorted = sort_by_name(named(&["Item 2", "Item 10", "Item 1"]), false);
    assert_eq!(names_of(&sorted), ["Item 1", "Item 2", "Item 10"]);
    let sorted = sort_by_name(named(&["Item 2", "Item 10", "Item 1"]), true);
    assert_eq!(names_of(&sorted), ["Item 1", "Item 2", "Item 10"]);
    let sorted = sort_by_name(named(&["rfc2086.txt", "rfc822.txt", "rfc1.txt"]), false);
    assert_eq!(names_of(&sorted), ["rfc1.txt", "rfc822.txt", "rfc2086.txt"]);
}

#[test]
fn sorting_keeps_every_item_with_its_name() {
    let sorted = sort_by_name(named(&["b", "c", "a"]), false);
    assert_eq!(
        sorted,
        vec![
            ("a".to_string(), "<a>".to_string()),
            ("b".to_string(), "<b>".to_string()),
            ("c".to_string(), "<c>".to_string()),
        ]
    );
    assert_eq!(sort_by_name(named(&[]), false), Vec::new());
    assert_eq!(names_of(&sort_by_name(named(&["only"]), true)), ["only"]);
}

#[test]
fn names_that_compare_alike_keep_their_order() {
    let items = vec![
        ("a b".to_string(), "first".to_string()),
        ("ab".to_string(), "second".to_string()),
        ("a  b".to_string(), "third".to_string()),
        ("aa".to_string(), "fourth".to_string()),
    ];
    let sorted = sort_by_name(items, false);
    let order: Vec<&str> = sorted.iter().map(|item| item.1.as_str()).collect();
    assert_eq!(order, ["fourth", "first", "second", "third"]);
}

#[test]
fn case_counts_only_where_asked() {
    let sorted = sort_by_name(named(&["b", "a", "A"]), true);
    assert_eq!(names_of(&sorted), ["a", "A", "b"]);
    let sorted = sort_by_name(named(&["b", "a", "A"]), false);
    assert_eq!(names_of(&sorted), ["A", "a", "b"]);
    assert_eq!(compare_names("a", "A", true), Order::Equal);
    assert_eq!(compare_names("a", "A", false), Order::Greater);
    assert_eq!(compare_names("A", "a", false), Order::Less);
    assert_eq!(compare_names("Item 2", "Item 10", false), Order::Less);
    assert_eq!(compare_names("item 10", "Item 2", true), Order::Greater);
}

#[test]
fn texts_are_compared() {
    assert!(same_text("md", "md"));
    assert!(!same_text("md", "MD"));
    assert!(!same_text("md", "m"));
    assert!(same_text("", ""));
}

#[test]
fn markdown_files_have_the_extension_md() {
    assert!(has_markdown_extension("a/photo.md"));
    assert!(has_markdown_extension(".secret.md"));
    assert!(!has_markdown_extension("photo.webp"));
    assert!(!has_markdown_extension("photo.MD"));
    assert!(!has_markdown_extension("md"));
    assert!(!has_markdown_extension(".md"));
}

#[test]
fn directories_and_markdown_files_are_shown() {
    assert_eq!(is_shown(&dir("site/blog")).unwrap(), true);
    assert_eq!(is_shown(&file("site/about.md")).unwrap(), true);
    assert_eq!(is_shown(&file("site/style.css")).unwrap(), false);
    assert_eq!(is_shown(&file("site/photo.webp")).unwrap(), false);
    assert_eq!(is_shown(&file("site/README")).unwrap(), false);
}

#[test]
fn hidden_entries_are_not_shown() {
    assert_eq!(is_shown(&file("site/.secret.md")).unwrap(), false);
    assert_eq!(is_shown(&dir("site/.git")).unwrap(), false);
    assert_eq!(is_shown(&file("site/.photo")).unwrap(), false);
    assert_eq!(is_shown_dir_only(&dir("site/.git")).unwrap(), false);
    assert!(!filter_files(&file("site/.secret.md")));
    assert!(!filter_files(&dir("site/.git")));
}

#[test]
fn only_directories_are_shown_in_the_navigation() {
    assert_eq!(is_shown_dir_only(&dir("site/blog")).unwrap(), true);
    assert_eq!(is_shown_dir_only(&file("site/about.md")).unwrap(), false);
}

#[test]
fn entries_without_a_name_are_invalid() {
    let error = is_shown(&dir("site/..")).unwrap_err();
    assert!(matches!(&error, webr::utils::Error::InvalidPath(path) if path == "site/.."));
    assert_eq!(error.message(), "Invalid path: site/..");
    let error = is_shown_dir_only(&dir("")).unwrap_err();
    assert!(matches!(&error, webr::utils::Error::InvalidPath(path) if path.is_empty()));
    assert!(!filter_files(&dir("site/..")));
}

#[test]
fn entries_of_unknown_kind_are_errors() {
    let error = is_shown(&unreadable("site/about.md")).unwrap_err();
    assert!(matches!(&error, webr::utils::Error::IO(reason) if reason == "permission denied"));
    assert_eq!(error.message(), "permission denied");
    let error = is_shown_dir_only(&unreadable("site/blog")).unwrap_err();
    assert!(matches!(&error, webr::utils::Error::IO(_)));
    assert!(matches!(
        is_shown(&unreadable("site/..")).unwrap_err(),
        webr::utils::Error::InvalidPath(_)
    ));
}

#[test]
fn lenient_filter_takes_markdown_files_of_unknown_kind() {
    assert!(filter_files(&unreadable("site/about.md")));
    assert!(!filter_files(&unreadable("site/blog")));
    assert!(filter_files(&dir("site/blog")));
    assert!(filter_files(&file("site/about.md")));
    assert!(!filter_files(&file("site/style.css")));
}

#[test]
fn entries_are_named_for_the_navigation() {
    assert_eq!(
        to_display_and_fname(&dir("site/my-notes")).unwrap(),
        ("My Notes".to_string(), "my-notes".to_string())
    );
    assert_eq!(
        to_display_and_fname(&file("site/blog/first-post.md")).unwrap(),
        ("First Post".to_string(), "first-post.md".to_string())
    );
    assert_eq!(
        to_display_and_fname(&dir("site/v1.2/")).unwrap(),
        ("V 1".to_string(), "v1.2".to_string())
    );
}

#[test]
fn entries_without_a_name_cannot_be_named() {
    let error = to_display_and_fname(&dir("site/..")).unwrap_err();
    assert!(matches!(&error, webr::utils::Error::FileName(path) if path == "site/.."));
    assert_eq!(error.message(), "Could not get file name of site/..");
    assert!(matches!(
        to_display_and_fname(&dir("/")).unwrap_err(),
        webr::utils::Error::FileName(_)
    ));
}

#[test]
fn utils_errors_in_words() {
    assert_eq!(
        webr::utils::Error::FileRoot("a/b".to_string()).message(),
        "Could not get file root of a/b"
    );
    assert_eq!(webr::utils::Error::EmptyNav.message(), "Nav is empty");
}

#[test]
fn links_are_list_items() {
    assert_eq!(format_link("blog", "Blog"), "<li><a href=\"/blog\">Blog</a></li>");
    assert_eq!(format_link("", ""), "<li><a href=\"/\"></a></li>");
    assert_eq!(
        format_links_of(&vec![
            ("Blog".to_string(), "blog".to_string()),
            ("About Me".to_string(), "about-me".to_string()),
        ]),
        "<li><a href=\"/blog\">Blog</a></li><li><a href=\"/about-me\">About Me</a></li>"
    );
    assert_eq!(format_links_of(&Vec::new()), "");
}

fn site() -> Vec<DirEntry> {
    vec![
        dir("site/blog"),
        dir("site/.git"),
        file("site/index.md"),
        dir("site/item-10"),
        dir("site/about-me"),
        file("site/.secret.md"),
        dir("site/item-2"),
        unreadable("site/broken"),
    ]
}

#[test]
fn navigation_links_to_the_shown_directories_in_natural_order() {
    assert_eq!(
        nav(&site()),
        "<li><a href=\"/\">Home</a></li>\
         <li><a href=\"/about-me\">About Me</a></li>\
         <li><a href=\"/blog\">Blog</a></li>\
         <li><a href=\"/item-2\">Item 2</a></li>\
         <li><a href=\"/item-10\">Item 10</a></li>"
    );
    assert_eq!(
        nav_entries(&site()),
        vec![
            ("About Me".to_string(), "about-me".to_string()),
            ("Blog".to_string(), "blog".to_string()),
            ("Item 2".to_string(), "item-2".to_string()),
            ("Item 10".to_string(), "item-10".to_string()),
        ]
    );
}

#[test]
fn navigation_of_an_empty_site_leads_home() {
    assert_eq!(nav(&Vec::new()), "<li><a href=\"/\">Home</a></li>");
    assert_eq!(nav(&vec![file("site/index.md")]), "<li><a href=\"/\">Home</a></li>");
}

#[test]
fn hidden_entry_never_appears_in_the_navigation() {
    let entries = vec![dir("site/.secret.md"), file("site/.secret.md"), dir("site/open")];
    let markup = nav(&entries);
    assert!(!markup.contains("secret"));
    assert_eq!(
        markup,
        "<li><a href=\"/\">Home</a></li><li><a href=\"/open\">Open</a></li>"
    );
    let markup = html::nav(&entries).unwrap();
    assert!(!markup.contains("secret"));
}

#[test]
fn navigation_as_a_list_keeps_the_order_of_the_entries() {
    let entries = vec![dir("site/blog"), dir("site/.git"), file("site/index.md"), dir("site/about-me")];
    assert_eq!(
        html::nav(&entries).unwrap(),
        "<ul><li><a href=\"/\">Home</a></li>\
         <li><a href=\"/blog\">Blog</a></li>\n\
         <li><a href=\"/about-me\">About Me</a></li></ul>"
    );
    assert_eq!(html::nav(&Vec::new()).unwrap(), "<ul><li><a href=\"/\">Home</a></li></ul>");
}

#[test]
fn navigation_as_a_list_fails_on_an_entry_it_cannot_read() {
    let error = html::nav(&site()).unwrap_err();
    assert!(matches!(&error, webr::error::Error::IO(reason) if reason == "permission denied"));
    let error = html::nav(&vec![dir("site/blog"), dir("site/..")]).unwrap_err();
    assert!(matches!(&error, webr::error::Error::Generic(_)));
    assert_eq!(error.message(), "Generic Invalid path site/..");
    assert!(html::nav(&vec![file("site/..")]).is_ok());
}

#[test]
fn results_are_split_in_order() {
    let results: Vec<Result<u8, &str>> = vec![Ok(1), Err("a"), Ok(2), Ok(3), Err("b")];
    let (oks, errs) = results.partition_result();
    assert_eq!(oks, [1, 2, 3]);
    assert_eq!(errs, ["a", "b"]);
    let results: Vec<Result<u8, &str>> = Vec::new();
    let (oks, errs) = results.partition_result();
    assert!(oks.is_empty() && errs.is_empty());
    let results: Vec<Result<u8, &str>> = vec![Err("x")];
    let (oks, errs) = results.partition_result();
    assert!(oks.is_empty());
    assert_eq!(errs, ["x"]);
}

#[test]
fn paths_of_a_markdown_file() {
    let paths = get_paths("site", "gallery", &file("site/gallery/photo.md")).unwrap();
    assert_eq!(paths.request_path, "gallery");
    assert_eq!(paths.full_request_path, "site/gallery");
    assert_eq!(paths.entry_path, "gallery/photo.md");
    assert_eq!(paths.full_entry_path, "site/gallery/photo.md");
    assert_eq!(paths.image_path, "gallery/photo.webp");
    assert_eq!(paths.description_path, "site/gallery/.photo");
    assert_eq!(paths.link_path, "gallery/photo");
    assert_eq!(paths.display_name, "Photo");
}

#[test]
fn paths_of_a_directory() {
    let paths = get_paths("/srv/www", "", &dir("/srv/www/my-notes")).unwrap();
    assert_eq!(paths.request_path, "");
    assert_eq!(paths.full_request_path, "/srv/www/");
    assert_eq!(paths.entry_path, "my-notes");
    assert_eq!(paths.image_path, "my-notes.webp");
    assert_eq!(paths.description_path, "/srv/www/.my-notes");
    assert_eq!(paths.link_path, "my-notes");
    assert_eq!(paths.display_name, "My Notes");
    let paths = get_paths("site", "", &dir("site/notes.md")).unwrap();
    assert_eq!(paths.link_path, "notes.md");
    assert_eq!(paths.image_path, "notes.webp");
}

#[test]
fn paths_of_a_name_with_several_dots() {
    let paths = get_paths("site", "a", &file("site/a/b.c.md")).unwrap();
    assert_eq!(paths.entry_path, "a/b.c.md");
    assert_eq!(paths.image_path, "a/b.c.webp");
    assert_eq!(paths.description_path, "site/a/.b");
    assert_eq!(paths.link_path, "a/b.c");
    assert_eq!(paths.display_name, "B");
}

#[test]
fn paths_outside_the_root_are_errors() {
    let error = get_paths("site", "", &file("other/photo.md")).unwrap_err();
    assert!(matches!(error, Error::Path));
    assert_eq!(error.message(), "prefix not found");
}

#[test]
fn paths_without_a_name_are_errors() {
    let error = get_paths("site", "", &dir("site/..")).unwrap_err();
    assert!(matches!(&error, Error::FileRoot(path) if path == "site/.."));
    assert_eq!(error.message(), "Could not get file root of site/..");
    assert!(matches!(get_paths("site", "", &dir("site")).unwrap_err(), Error::FileRoot(_)));
}

fn gallery() -> Vec<DirEntry> {
    vec![
        file("site/gallery/photo.webp"),
        file("site/gallery/photo.md"),
        file("site/gallery/.photo"),
        file("site/gallery/.secret.md"),
        dir("site/gallery/.cache"),
        file("site/gallery/notes.md"),
        dir("site/gallery/item-10"),
        dir("site/gallery/item-2"),
        unreadable("site/gallery/broken.md"),
    ]
}

#[test]
fn listing_shows_what_is_not_hidden() {
    let shown = dir_paths("site", "gallery", &gallery());
    let entries: Vec<&str> = shown.iter().map(|paths| paths.entry_path.as_str()).collect();
    assert_eq!(
        entries,
        ["gallery/photo.md", "gallery/notes.md", "gallery/item-10", "gallery/item-2"]
    );
    assert!(dir_paths("site", "gallery", &Vec::new()).is_empty());
}

#[test]
fn hidden_entry_never_appears_in_a_listing() {
    let entries = vec![file("site/.secret.md"), file("site/open.md")];
    let shown = dir_paths("site", "", &entries);
    assert_eq!(shown.len(), 1);
    assert_eq!(shown[0].entry_path, "open.md");
    let items = shown.into_iter().map(|paths| listing_item(paths, None)).collect();
    let listing = render_dir("", items);
    assert!(!listing.content.contains("secret"));
    assert_eq!(
        listing.content,
        "<div class=\"pic-grid\"></div><ul><li><a href=\"/open\">Open</a></li></ul>"
    );
}

fn photo_paths() -> Paths {
    get_paths("site", "gallery", &file("site/gallery/photo.md")).unwrap()
}

#[test]
fn picture_tile_needs_a_picture() {
    assert!(format_image_link(&photo_paths(), false, Some("caption".to_string())).is_none());
    assert!(format_image_link(&photo_paths(), false, None).is_none());
}

#[test]
fn picture_tile_links_to_picture_and_entry() {
    let tile = format_image_link(&photo_paths(), true, Some("At the sea".to_string())).unwrap();
    assert_eq!(tile.img, "/gallery/photo.webp");
    assert_eq!(tile.link, "/gallery/photo");
    assert_eq!(tile.name, "Photo");
    assert_eq!(tile.caption, "At the sea");
    let tile = format_image_link(&photo_paths(), true, None).unwrap();
    assert_eq!(tile.caption, "");
}

#[test]
fn entry_without_a_tile_is_linked_plainly() {
    let item = listing_item(photo_paths(), None);
    let paths = item.unwrap_err();
    assert_eq!(paths.entry_path, "gallery/photo.md");
    let item = listing_item(photo_paths(), Some("<figure/>".to_string()));
    assert_eq!(item.unwrap(), ("Photo".to_string(), "<figure/>".to_string()));
}

#[test]
fn plain_link_leads_to_the_entry() {
    assert_eq!(
        format_links(photo_paths()),
        "<li><a href=\"/gallery/photo\">Photo</a></li>"
    );
    let paths = get_paths("site", "", &dir("site/my-notes")).unwrap();
    assert_eq!(format_links(paths), "<li><a href=\"/my-notes\">My Notes</a></li>");
}

#[test]
fn fragments_are_joined_in_order() {
    assert_eq!(join_fragments(&named(&["b", "a"])), "<b><a>");
    assert_eq!(join_fragments(&Vec::new()), "");
}

#[test]
fn listing_is_titled_after_its_directory() {
    assert_eq!(dir_title("gallery"), "Gallery");
    assert_eq!(dir_title("blog/my-notes"), "My Notes");
    assert_eq!(dir_title("blog/v1.2"), "V 1");
    assert_eq!(dir_title(""), "Daniel's Website");
    assert_eq!(dir_title("/"), "Daniel's Website");
}

fn render_tile(tile: &PicGridTemplate) -> String {
    format!(
        "<figure><a href=\"{}\"><img src=\"{}\" alt=\"{}\"></a><figcaption>{}</figcaption></figure>",
        tile.link, tile.img, tile.name, tile.caption
    )
}

#[test]
fn listing_of_a_directory_with_a_page_and_a_picture() {
    let entries = vec![
        file("site/gallery/photo.md"),
        file("site/gallery/photo.webp"),
        file("site/gallery/.photo"),
        file("site/gallery/notes.md"),
    ];
    let pictures = ["gallery/photo.webp"];
    let mut items = Vec::new();
    for paths in dir_paths("site", "gallery", &entries) {
        let has_image = pictures.contains(&paths.image_path.as_str());
        let caption = if paths.description_path == "site/gallery/.photo" {
            Some("At the sea".to_string())
        } else {
            None
        };
        let tile = format_image_link(&paths, has_image, caption).map(|tile| render_tile(&tile));
        items.push(listing_item(paths, tile));
    }
    let listing = render_dir("gallery", items);
    assert_eq!(listing.title, "Gallery");
    assert_eq!(
        listing.content,
        "<div class=\"pic-grid\">\
         <figure><a href=\"/gallery/photo\"><img src=\"/gallery/photo.webp\" alt=\"Photo\"></a>\
         <figcaption>At the sea</figcaption></figure>\
         </div><ul><li><a href=\"/gallery/notes\">Notes</a></li></ul>"
    );
    assert!(listing.content.contains("At the sea"));
    assert!(listing.content.contains("href=\"/gallery/photo\""));
}

#[test]
fn listing_sorts_tiles_and_links_each_in_natural_order() {
    let entries = vec![
        dir("site/item-10"),
        dir("site/pic-2"),
        dir("site/item-2"),
        dir("site/pic-10"),
        dir("site/item-1"),
        dir("site/pic-1"),
    ];
    let mut items = Vec::new();
    for paths in dir_paths("site", "", &entries) {
        let tile = if paths.entry_path.starts_with("pic") {
            Some(format!("[{}]", paths.display_name))
        } else {
            None
        };
        items.push(listing_item(paths, tile));
    }
    let listing = render_dir("", items);
    assert_eq!(listing.title, "Daniel's Website");
    assert_eq!(
        listing.content,
        "<div class=\"pic-grid\">[Pic 1][Pic 2][Pic 10]</div><ul>\
         <li><a href=\"/item-1\">Item 1</a></li>\
         <li><a href=\"/item-2\">Item 2</a></li>\
         <li><a href=\"/item-10\">Item 10</a></li></ul>"
    );
}

#[test]
fn listing_of_nothing_is_empty() {
    let listing = render_dir("blog", Vec::new());
    assert_eq!(listing.title, "Blog");
    assert_eq!(listing.content, "<div class=\"pic-grid\"></div><ul></ul>");
}
