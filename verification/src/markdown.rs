//! Pages from markdown: the text of a page and what it says of itself at its
//! head, and the listing of a directory.

use crate::utils::iterator::{errs_of, oks_of, PartitionResult};
use crate::utils::order::{named, sort_by_name, sorted_by_name};
use crate::utils::path::{
    file_root_of, has_file_name, is_hidden_path, join, join_of, last_component, root_of_name,
    strip_prefix, strip_prefix_of, with_extension, with_extension_of, PathExt,
};
use crate::utils::{
    display_name, format_link, has_markdown_extension, is_markdown, is_shown, is_shown_entry,
    link_item, same_text, title_case, DirEntry,
};
use crate::{default_metadata, texts, Metadata, MetadataView, SITE_TITLE};
use vstd::prelude::*;

verus! {

/// Why a page could not be made as asked.
#[derive(Debug)]
pub enum Error {
    /// The path ends in no name of which the part before the first `.` could
    /// be taken.
    FileRoot(String),
    /// The page has no block at its head that says anything of it.
    Frontmatter,
    /// The block at the head of the page does not say what it has to; the
    /// field holds the reason in words.
    TOML(String),
    /// The entry does not lie below the root of the site.
    Path,
}

impl Error {
    /// The error in words, as the contracts see them.
    pub open spec fn message_text(&self) -> Seq<char> {
        match *self {
            Error::FileRoot(p) => "Could not get file root of "@ + p@,
            Error::Frontmatter => "No frontmatter found"@,
            Error::TOML(reason) => reason@,
            Error::Path => "prefix not found"@,
        }
    }

    /// The error in words.
    pub fn message(&self) -> (text: String)
        ensures
            text@ == self.message_text(),
    {
        match self {
            Error::FileRoot(p) => "Could not get file root of ".to_owned().concat(p.as_str()),
            Error::Frontmatter => "No frontmatter found".to_owned(),
            Error::TOML(reason) => reason.clone(),
            Error::Path => "prefix not found".to_owned(),
        }
    }
}

/// What rendering the markdown text `source` with the parser options of bit
/// pattern `options` gives: the text of the block at the head of the page,
/// where there is one, and the markup of the rest.
pub uninterp spec fn rendered_markdown(source: Seq<char>, options: u32) -> (
    Option<Seq<char>>,
    Seq<char>,
);

/// The names of the top-level entries of the TOML document `document`; the
/// complaint of the parser, in words, where it is no TOML document.
pub uninterp spec fn toml_keys(document: Seq<char>) -> Result<Seq<Seq<char>>, Seq<char>>;

/// The string that the TOML document `document` holds at its top level under
/// `key`; `None` where it is no TOML document, has no such entry, or holds
/// something else than a string there.
pub uninterp spec fn toml_string(document: Seq<char>, key: Seq<char>) -> Option<Seq<char>>;

/// The strings of the array that the TOML document `document` holds at its
/// top level under `key`; `None` where it is no TOML document, has no such
/// entry, or holds something else than an array of strings there.
pub uninterp spec fn toml_strings(document: Seq<char>, key: Seq<char>) -> Option<
    Seq<Seq<char>>,
>;

/// Renders markdown with `pulldown_cmark::html::push_html`, from a
/// `pulldown_cmark::Parser` made by `new_ext` with the options that
/// `Options::from_bits_truncate` makes of `options`, through a
/// `pulldown_cmark_frontmatter::FrontmatterExtractor`, and hands back the
/// source of the code block that the extractor found at the head, with the
/// markup. Trusted: both depend on the text and the options alone.
#[verifier::external_body]
fn render_with_frontmatter(source: &str, options: u32) -> (parts: (Option<String>, String))
    ensures
        parts.0 is Some <==> rendered_markdown(source@, options).0 is Some,
        parts.0 matches Some(block) ==> rendered_markdown(source@, options).0 == Some(block@),
        parts.1@ == rendered_markdown(source@, options).1,
{
    let options = pulldown_cmark::Options::from_bits_truncate(options);
    let parser = pulldown_cmark::Parser::new_ext(source, options);
    let mut extractor = pulldown_cmark_frontmatter::FrontmatterExtractor::new(parser);
    let mut content = String::new();
    pulldown_cmark::html::push_html(&mut content, &mut extractor);
    let block = extractor.frontmatter.and_then(|found| found.code_block);
    (block.map(|code| code.source.to_string()), content)
}

/// Parses a TOML document into a `toml::Table` and hands back its `keys()`,
/// or the parser's error as text. Trusted: the result depends on the
/// document alone.
#[verifier::external_body]
fn toml_document_keys(document: &str) -> (keys: Result<Vec<String>, String>)
    ensures
        keys is Ok <==> toml_keys(document@) is Ok,
        keys matches Ok(k) ==> (toml_keys(document@) matches Ok(names) && names == texts(k@)),
        keys matches Err(e) ==> (toml_keys(document@) matches Err(reason) && reason == e@),
{
    match document.parse::<toml::Table>() {
        Ok(table) => Ok(table.keys().cloned().collect()),
        Err(error) => Err(error.to_string()),
    }
}

/// Parses a TOML document into a `toml::Table` and hands back what `get`
/// finds under `key`, where that is a `toml::Value::String`. Trusted: the
/// result depends on the document and the key alone.
#[verifier::external_body]
fn toml_document_string(document: &str, key: &str) -> (value: Option<String>)
    ensures
        value is Some <==> toml_string(document@, key@) is Some,
        value matches Some(v) ==> toml_string(document@, key@) == Some(v@),
{
    match document.parse::<toml::Table>().ok()?.get(key)? {
        toml::Value::String(text) => Some(text.clone()),
        _ => None,
    }
}

/// Parses a TOML document into a `toml::Table` and hands back what `get`
/// finds under `key`, where that is a `toml::Value::Array` of which every
/// item is a `toml::Value::String`. Trusted: the result depends on the
/// document and the key alone.
#[verifier::external_body]
fn toml_document_strings(document: &str, key: &str) -> (value: Option<Vec<String>>)
    ensures
        value is Some <==> toml_strings(document@, key@) is Some,
        value matches Some(v) ==> toml_strings(document@, key@) == Some(texts(v@)),
{
    match document.parse::<toml::Table>().ok()?.get(key)? {
        toml::Value::Array(items) => items.iter().map(
            |item| item.as_str().map(String::from),
        ).collect(),
        _ => None,
    }
}

/// What the block `block` at the head of a page says of the page: its title,
/// which has to be there and be a string, and its tags, which where they are
/// there have to be strings. Entries under other names say nothing.
pub open spec fn metadata_of(block: Seq<char>) -> Option<MetadataView> {
    match (toml_keys(block), toml_string(block, "title"@)) {
        (Ok(keys), Some(title)) => {
            if keys.contains("tags"@) {
                match toml_strings(block, "tags"@) {
                    Some(tags) => Some(MetadataView { title, tags: Some(tags) }),
                    None => None,
                }
            } else {
                Some(MetadataView { title, tags: None })
            }
        },
        _ => None,
    }
}

/// Why the block `block` at the head of a page says nothing of the page,
/// where it does not: the complaint of the parser where the block is no TOML
/// document, else which entry is at fault.
pub open spec fn metadata_failure(block: Seq<char>) -> Seq<char> {
    match toml_keys(block) {
        Err(reason) => reason,
        Ok(_) => if toml_string(block, "title"@) is None {
            "missing or invalid field `title`"@
        } else {
            "invalid field `tags`"@
        },
    }
}

/// Whether `text` is among `names`.
pub fn contains_text(names: &Vec<String>, text: &str) -> (found: bool)
    ensures
        found == texts(names@).contains(text@),
{
    let mut at: usize = 0;
    while at < names.len()
        invariant
            at <= names@.len(),
            forall|i: int| 0 <= i < at ==> texts(names@)[i] != text@,
        decreases names@.len() - at,
    {
        if same_text(names[at].as_str(), text) {
            assert(texts(names@)[at as int] == text@);
            return true;
        }
        at = at + 1;
    }
    false
}

/// Reads what the block at the head of a page says of the page. The block is
/// a TOML document. Its entry `title` has to be there and be a string; its
/// entry `tags` may be missing, and is an array of strings where it is there.
pub fn parse_metadata(block: &str) -> (metadata: Result<Metadata, Error>)
    ensures
        metadata is Ok <==> metadata_of(block@) is Some,
        metadata matches Ok(m) ==> metadata_of(block@) == Some(m@),
        metadata matches Err(e) ==> (e matches Error::TOML(reason) && reason@
            == metadata_failure(block@)),
{
    let keys = match toml_document_keys(block) {
        Ok(keys) => keys,
        Err(reason) => {
            return Err(Error::TOML(reason));
        },
    };
    let title = match toml_document_string(block, "title") {
        Some(title) => title,
        None => {
            return Err(Error::TOML("missing or invalid field `title`".to_owned()));
        },
    };
    if contains_text(&keys, "tags") {
        match toml_document_strings(block, "tags") {
            Some(tags) => Ok(Metadata { title, tags: Some(tags) }),
            None => Err(Error::TOML("invalid field `tags`".to_owned())),
        }
    } else {
        Ok(Metadata { title, tags: None })
    }
}

/// What a page says of itself, given the block at its head if it has one.
pub fn extract_metadata(block: Option<&str>) -> (metadata: Result<Metadata, Error>)
    ensures
        match block {
            None => metadata matches Err(Error::Frontmatter),
            Some(b) => {
                &&& metadata is Ok <==> metadata_of(b@) is Some
                &&& metadata matches Ok(m) ==> metadata_of(b@) == Some(m@)
                &&& metadata matches Err(e) ==> (e matches Error::TOML(reason) && reason@
                    == metadata_failure(b@))
            },
        },
{
    match block {
        Some(block) => parse_metadata(block),
        None => Err(Error::Frontmatter),
    }
}

/// What is shown of a page whose head was read with the result `found`: what
/// the head says where it could be read, and the title of the site without
/// tags where it could not.
pub open spec fn metadata_or_default(found: Option<MetadataView>) -> MetadataView {
    match found {
        Some(metadata) => metadata,
        None => default_metadata(),
    }
}

/// What the head of a page with the block `block` says, if anything.
pub open spec fn found_metadata(block: Option<Seq<char>>) -> Option<MetadataView> {
    match block {
        Some(b) => metadata_of(b),
        None => None,
    }
}

/// A page made from markdown.
#[derive(Debug)]
pub struct Page {
    /// What the page says of itself, or what stands for it.
    pub metadata: Metadata,
    /// The markup of the page.
    pub content: String,
    /// Why the page says nothing of itself, where it does not.
    pub warning: Option<Error>,
}

/// Renders the markdown text `source` of a page with the parser options of
/// bit pattern `md_options`. A page that says nothing of itself at its head,
/// or says it wrongly, is rendered all the same: it gets the title of the
/// site and no tags, and the reason is handed back as a warning.
pub fn render_markdown(source: &str, md_options: u32) -> (page: Page)
    ensures
        page.content@ == rendered_markdown(source@, md_options).1,
        page.metadata@ == metadata_or_default(
            found_metadata(rendered_markdown(source@, md_options).0),
        ),
        page.warning is None <==> found_metadata(rendered_markdown(source@, md_options).0)
            is Some,
        rendered_markdown(source@, md_options).0 is None ==> page.metadata@
            == default_metadata() && page.warning matches Some(Error::Frontmatter),
        rendered_markdown(source@, md_options).0 matches Some(block) ==> (page.warning
            matches Some(e) ==> (e matches Error::TOML(reason) && reason@ == metadata_failure(
            block,
        ))),
{
    let (block, content) = render_with_frontmatter(source, md_options);
    let found = match &block {
        Some(block) => extract_metadata(Some(block.as_str())),
        None => extract_metadata(None),
    };
    match found {
        Ok(metadata) => Page { metadata, content, warning: None },
        Err(error) => Page { metadata: Metadata::default(), content, warning: Some(error) },
    }
}

/// The paths and names that belong to one entry of a listing.
#[derive(Debug)]
pub struct Paths {
    /// The directory that is listed, as it was asked for.
    pub request_path: String,
    /// The directory that is listed, in the file system.
    pub full_request_path: String,
    /// The entry, as seen from the root of the site.
    pub entry_path: String,
    /// The entry, in the file system.
    pub full_entry_path: String,
    /// Where the picture of the entry lies if it has one, as seen from the
    /// root of the site.
    pub image_path: String,
    /// Where the caption of the picture lies if it has one, in the file
    /// system.
    pub description_path: String,
    /// The path under which the entry is asked for: that of the entry,
    /// without the extension where the entry is a markdown file.
    pub link_path: String,
    /// The name under which the entry is shown.
    pub display_name: String,
}

/// `Paths` as the contracts see it.
pub struct PathsView {
    pub request_path: Seq<char>,
    pub full_request_path: Seq<char>,
    pub entry_path: Seq<char>,
    pub full_entry_path: Seq<char>,
    pub image_path: Seq<char>,
    pub description_path: Seq<char>,
    pub link_path: Seq<char>,
    pub display_name: Seq<char>,
}

impl View for Paths {
    type V = PathsView;

    open spec fn view(&self) -> PathsView {
        PathsView {
            request_path: self.request_path@,
            full_request_path: self.full_request_path@,
            entry_path: self.entry_path@,
            full_entry_path: self.full_entry_path@,
            image_path: self.image_path@,
            description_path: self.description_path@,
            link_path: self.link_path@,
            display_name: self.display_name@,
        }
    }
}

/// The path under which the entry at `entry_path` is asked for: the path
/// without its extension where the entry is a markdown file, and the path
/// itself where it is a directory.
pub open spec fn link_path_of(entry_path: Seq<char>, directory: bool) -> Seq<char> {
    if !directory && is_markdown(entry_path) {
        with_extension_of(entry_path, Seq::empty())
    } else {
        entry_path
    }
}

/// The paths and names that belong to the entry at `entry_path`, as seen from
/// the root `root`, in the listing of the directory asked for as
/// `request_path`.
pub open spec fn paths_of(
    root: Seq<char>,
    request_path: Seq<char>,
    full_entry_path: Seq<char>,
    entry_path: Seq<char>,
    directory: bool,
) -> PathsView {
    let stem = root_of_name(last_component(entry_path));
    PathsView {
        request_path,
        full_request_path: join_of(root, request_path),
        entry_path,
        full_entry_path,
        image_path: with_extension_of(entry_path, "webp"@),
        description_path: join_of(join_of(root, request_path), "."@ + stem),
        link_path: link_path_of(entry_path, directory),
        display_name: title_case(stem),
    }
}

/// Whether `entry` is known to be a directory.
pub open spec fn is_directory(entry: DirEntry) -> bool {
    entry.is_dir matches Ok(dir) && dir
}

/// What `get_paths` makes of `entry`.
pub open spec fn entry_paths(root: Seq<char>, request_path: Seq<char>, entry: DirEntry) -> Option<
    PathsView,
> {
    match strip_prefix_of(entry.path@, root) {
        Some(entry_path) => if has_file_name(entry_path) {
            Some(paths_of(root, request_path, entry.path@, entry_path, is_directory(entry)))
        } else {
            None
        },
        None => None,
    }
}

/// The paths and names that belong to `entry` in the listing of the
/// directory asked for as `request_path`, below the root `root` of the site.
/// Fails where the entry does not lie below the root, and where its path
/// ends in no name.
pub fn get_paths(root: &str, request_path: &str, entry: &DirEntry) -> (paths: Result<
    Paths,
    Error,
>)
    ensures
        paths is Ok <==> entry_paths(root@, request_path@, *entry) is Some,
        paths matches Ok(p) ==> entry_paths(root@, request_path@, *entry) == Some(p@),
        match strip_prefix_of(entry.path@, root@) {
            None => paths matches Err(Error::Path),
            Some(entry_path) => !has_file_name(entry_path) ==> (paths matches Err(
                Error::FileRoot(p),
            ) && p@ == entry.path@),
        },
{
    let entry_path = match strip_prefix(entry.path.as_str(), root) {
        Some(entry_path) => entry_path,
        None => {
            return Err(Error::Path);
        },
    };
    let stem = match entry_path.file_root() {
        Some(stem) => stem,
        None => {
            return Err(Error::FileRoot(entry.path.clone()));
        },
    };
    let directory = match &entry.is_dir {
        Ok(dir) => *dir,
        Err(_) => false,
    };
    let full_request_path = join(root, request_path);
    let mut caption_name = ".".to_owned();
    caption_name.append(stem);
    let description_path = join(full_request_path.as_str(), caption_name.as_str());
    let link_path = if !directory && has_markdown_extension(entry_path) {
        with_extension(entry_path, "")
    } else {
        entry_path.to_owned()
    };
    proof {
        reveal_strlit("");
        assert(""@ =~= Seq::<char>::empty());
    }
    Ok(
        Paths {
            request_path: request_path.to_owned(),
            full_request_path,
            entry_path: entry_path.to_owned(),
            full_entry_path: entry.path.clone(),
            image_path: with_extension(entry_path, "webp"),
            description_path,
            link_path,
            display_name: display_name(stem),
        },
    )
}

/// Whether `entry` is of a kind that a listing shows, judged leniently: an
/// entry that is not hidden and is a markdown file or known to be a
/// directory. An entry whose path ends in no name counts as hidden.
pub fn filter_files(entry: &DirEntry) -> (shown: bool)
    ensures
        shown == (is_hidden_path(entry.path@) == Some(false) && (is_markdown(entry.path@)
            || is_directory(*entry))),
{
    let is_md = has_markdown_extension(entry.path.as_str());
    let is_dir = match &entry.is_dir {
        Ok(dir) => *dir,
        Err(_) => false,
    };
    let is_hidden = match entry.path.as_str().is_hidden() {
        Some(hidden) => hidden,
        None => true,
    };
    !is_hidden && (is_md || is_dir)
}

/// What the listing of a directory holds for `entry`: its paths and names,
/// where the entry is shown and they can be made.
pub open spec fn listed(root: Seq<char>, request_path: Seq<char>, entry: DirEntry) -> Option<
    PathsView,
> {
    if is_shown_entry(entry) {
        entry_paths(root, request_path, entry)
    } else {
        None
    }
}

/// What the listing of the directory asked for as `request_path` shows of
/// the `entries` read from it: the paths and names of those that are shown,
/// in the order in which they were read.
pub open spec fn listing(root: Seq<char>, request_path: Seq<char>, entries: Seq<DirEntry>) -> Seq<
    PathsView,
> {
    entries.filter_map(|entry: DirEntry| listed(root, request_path, entry))
}

/// The entries that the listing of the directory asked for as `request_path`
/// shows, out of the `entries` read from it: those that are not hidden and
/// are directories or markdown files, each with its paths and names, in the
/// order in which they were read. An entry for which these cannot be made is
/// left out.
pub fn dir_paths(root: &str, request_path: &str, entries: &Vec<DirEntry>) -> (shown: Vec<Paths>)
    ensures
        shown@.map_values(|paths: Paths| paths@) == listing(root@, request_path@, entries@),
{
    let mut shown: Vec<Paths> = Vec::new();
    let ghost pick = |entry: DirEntry| listed(root@, request_path@, entry);
    let ghost view = |paths: Paths| paths@;
    let mut at: usize = 0;
    proof {
        assert(entries@.take(0) =~= Seq::<DirEntry>::empty());
        assert(shown@.map_values(view) =~= Seq::<PathsView>::empty());
    }
    while at < entries.len()
        invariant
            at <= entries@.len(),
            pick == |entry: DirEntry| listed(root@, request_path@, entry),
            view == |paths: Paths| paths@,
            shown@.map_values(view) == entries@.take(at as int).filter_map(pick),
        decreases entries@.len() - at,
    {
        let entry = &entries[at];
        let ghost before = shown@;
        proof {
            entries@.lemma_filter_map_take_succ(pick, at as int);
        }
        let keep = match is_shown(entry) {
            Ok(keep) => keep,
            Err(_) => false,
        };
        if keep {
            match get_paths(root, request_path, entry) {
                Ok(paths) => {
                    shown.push(paths);
                    assert(shown@.map_values(view) =~= before.map_values(view) + seq![paths@]);
                },
                Err(_) => {
                    assert(shown@.map_values(view) =~= before.map_values(view)
                        + Seq::<PathsView>::empty());
                },
            }
        } else {
            assert(shown@.map_values(view) =~= before.map_values(view)
                + Seq::<PathsView>::empty());
        }
        at = at + 1;
    }
    proof {
        assert(entries@.take(at as int) =~= entries@);
    }
    shown
}

/// Whether `paths` stand in the listing for one of `entries`: for an entry
/// among them that is not hidden and is a directory or a markdown file.
pub open spec fn is_listed_entry_of(
    root: Seq<char>,
    request_path: Seq<char>,
    entries: Seq<DirEntry>,
    paths: PathsView,
) -> bool {
    exists|j: int|
        0 <= j < entries.len() && is_shown_entry(#[trigger] entries[j]) && entry_paths(
            root,
            request_path,
            entries[j],
        ) == Some(paths)
}

/// Everything that a listing shows stands for an entry that is not hidden
/// and is a directory or a markdown file: no hidden entry is listed, and no
/// file of another kind.
pub proof fn lemma_no_hidden_entry_listed(
    root: Seq<char>,
    request_path: Seq<char>,
    entries: Seq<DirEntry>,
)
    ensures
        forall|i: int|
            0 <= i < listing(root, request_path, entries).len() ==> is_listed_entry_of(
                root,
                request_path,
                entries,
                #[trigger] listing(root, request_path, entries)[i],
            ),
        forall|j: int|
            0 <= j < entries.len() && is_hidden_path((#[trigger] entries[j]).path@) != Some(false)
                ==> listed(root, request_path, entries[j]) is None,
{
    let pick = |entry: DirEntry| listed(root, request_path, entry);
    let shown = listing(root, request_path, entries);
    assert forall|i: int| 0 <= i < shown.len() implies is_listed_entry_of(
        root,
        request_path,
        entries,
        #[trigger] shown[i],
    ) by {
        let paths = shown[i];
        assert(shown.contains(paths));
        entries.lemma_filter_map_contains(pick, paths);
        let j = choose|j: int| 0 <= j < entries.len() && pick(entries[j]) == Some(paths);
        assert(listed(root, request_path, entries[j]) == Some(paths));
        assert(is_shown_entry(entries[j]));
    }
}

/// What a picture tile shows of an entry.
#[derive(Debug)]
pub struct PicGridTemplate {
    /// Where the picture is asked for.
    pub img: String,
    /// The name under which the entry is shown.
    pub name: String,
    /// Where the entry is asked for.
    pub link: String,
    /// The caption under the picture.
    pub caption: String,
}

/// `PicGridTemplate` as the contracts see it.
pub struct PicGridView {
    pub img: Seq<char>,
    pub name: Seq<char>,
    pub link: Seq<char>,
    pub caption: Seq<char>,
}

impl View for PicGridTemplate {
    type V = PicGridView;

    open spec fn view(&self) -> PicGridView {
        PicGridView { img: self.img@, name: self.name@, link: self.link@, caption: self.caption@ }
    }
}

/// The picture tile of the entry with the paths `paths`, where the entry has
/// a picture: `None` where it has none. A caption that could not be read is
/// left empty.
pub fn format_image_link(paths: &Paths, has_image: bool, caption: Option<String>) -> (tile:
    Option<PicGridTemplate>)
    ensures
        tile is Some <==> has_image,
        tile matches Some(t) ==> t@ == (PicGridView {
            img: "/"@ + paths.image_path@,
            name: paths.display_name@,
            link: "/"@ + paths.link_path@,
            caption: match caption {
                Some(text) => text@,
                None => Seq::empty(),
            },
        }),
{
    if !has_image {
        return None;
    }
    let caption = match caption {
        Some(text) => text,
        None => String::new(),
    };
    Some(
        PicGridTemplate {
            name: paths.display_name.clone(),
            img: "/".to_owned().concat(paths.image_path.as_str()),
            link: "/".to_owned().concat(paths.link_path.as_str()),
            caption,
        },
    )
}

/// What the listing holds for an entry: the markup of its picture tile where
/// one was rendered, under the name of the entry; the paths of the entry,
/// to be linked to plainly, where none was.
pub fn listing_item(paths: Paths, tile: Option<String>) -> (item: Result<
    (String, String),
    Paths,
>)
    ensures
        match tile {
            Some(markup) => item matches Ok(named_tile) && named_tile.0@ == paths.display_name@
                && named_tile.1@ == markup@,
            None => item == Err::<(String, String), Paths>(paths),
        },
{
    match tile {
        Some(markup) => Ok((paths.display_name, markup)),
        None => Err(paths),
    }
}

/// The plain link to the entry with the paths `paths`.
pub fn format_links(paths: Paths) -> (markup: String)
    ensures
        markup@ == link_item(paths.link_path@, paths.display_name@),
{
    format_link(paths.link_path.as_str(), paths.display_name.as_str())
}

/// The name under which the plain link to an entry is sorted, and its markup.
pub open spec fn link_fragment(paths: Paths) -> (Seq<char>, Seq<char>) {
    (paths.display_name@, link_item(paths.link_path@, paths.display_name@))
}

/// The markup of `items`, one after the other. Each item holds the name it
/// is sorted by and its markup.
pub open spec fn fragments(items: Seq<(Seq<char>, Seq<char>)>) -> Seq<char>
    decreases items.len(),
{
    if items.len() == 0 {
        Seq::empty()
    } else {
        fragments(items.drop_last()) + items.last().1
    }
}

/// The picture tiles among `items`, in natural order of their names, case
/// ignored.
pub open spec fn sorted_tiles(items: Seq<Result<(String, String), Paths>>) -> Seq<
    (Seq<char>, Seq<char>),
> {
    sorted_by_name(named(oks_of(items)), true)
}

/// The plain links among `items`, in natural order of their names, case
/// ignored.
pub open spec fn sorted_links(items: Seq<Result<(String, String), Paths>>) -> Seq<
    (Seq<char>, Seq<char>),
> {
    sorted_by_name(errs_of(items).map_values(|paths: Paths| link_fragment(paths)), true)
}

/// The markup of the listing of a directory: first the picture tiles, then
/// the plain links, each group in natural order of the names shown, case
/// ignored; entries whose names compare alike stay in the order in which
/// they came.
pub open spec fn listing_markup(items: Seq<Result<(String, String), Paths>>) -> Seq<char> {
    "<div class=\"pic-grid\">"@ + fragments(sorted_tiles(items)) + "</div><ul>"@ + fragments(
        sorted_links(items),
    ) + "</ul>"@
}

/// The title of the listing of the directory asked for as `request_path`:
/// the name of the directory, up to its first `.`, in title case; the title
/// of the site for the root.
pub open spec fn listing_title(request_path: Seq<char>) -> Seq<char> {
    match file_root_of(request_path) {
        Some(stem) => title_case(stem),
        None => title_case(SITE_TITLE@),
    }
}

/// The markup of `items`, one after the other.
pub fn join_fragments(items: &Vec<(String, String)>) -> (markup: String)
    ensures
        markup@ == fragments(named(items@)),
{
    let mut markup = String::new();
    let mut at: usize = 0;
    proof {
        assert(named(items@).take(0) =~= Seq::<(Seq<char>, Seq<char>)>::empty());
    }
    while at < items.len()
        invariant
            at <= items@.len(),
            markup@ == fragments(named(items@).take(at as int)),
        decreases items@.len() - at,
    {
        let item = &items[at];
        proof {
            let next = named(items@).take(at + 1);
            assert(next.drop_last() =~= named(items@).take(at as int));
            assert(next.last() == (item.0@, item.1@));
        }
        markup.append(item.1.as_str());
        at = at + 1;
    }
    proof {
        assert(named(items@).take(at as int) =~= named(items@));
    }
    markup
}

/// The listing of a directory.
#[derive(Debug)]
pub struct Listing {
    /// The title of the page.
    pub title: String,
    /// The markup of the listing.
    pub content: String,
}

/// The title of the listing of the directory asked for as `request_path`.
pub fn dir_title(request_path: &str) -> (title: String)
    ensures
        title@ == listing_title(request_path@),
{
    match request_path.file_root() {
        Some(stem) => display_name(stem),
        None => display_name(SITE_TITLE),
    }
}

/// The listing of the directory asked for as `request_path`, made of the
/// `items` that stand for its entries: first the picture tiles, then the
/// plain links, each group in natural order of the names shown.
pub fn render_dir(request_path: &str, items: Vec<Result<(String, String), Paths>>) -> (listing:
    Listing)
    ensures
        listing.title@ == listing_title(request_path@),
        listing.content@ == listing_markup(items@),
{
    let ghost all = items@;
    let (tiles, plain) = items.partition_result();
    let ghost plain_all = plain@;
    let ghost fragment = |paths: Paths| link_fragment(paths);
    let mut links: Vec<(String, String)> = Vec::new();
    proof {
        assert(plain_all.take(0).map_values(fragment) =~= named(links@));
    }
    for paths in it: plain
        invariant
            it.seq() == plain_all,
            fragment == |paths: Paths| link_fragment(paths),
            named(links@) == plain_all.take(it.index() as int).map_values(fragment),
    {
        let ghost before = links@;
        let name = paths.display_name.clone();
        let markup = format_links(paths);
        links.push((name, markup));
        proof {
            assert(plain_all.take(it.index() + 1) =~= plain_all.take(it.index() as int).push(
                paths,
            ));
            assert(named(links@) =~= named(before).push(link_fragment(paths)));
            assert(named(links@) =~= plain_all.take(it.index() + 1).map_values(fragment));
        }
    }
    proof {
        assert(plain_all.take(plain_all.len() as int) =~= plain_all);
    }
    let tiles = sort_by_name(tiles, true);
    let links = sort_by_name(links, true);
    let mut content = "<div class=\"pic-grid\">".to_owned();
    content.append(join_fragments(&tiles).as_str());
    content.append("</div><ul>");
    content.append(join_fragments(&links).as_str());
    content.append("</ul>");
    Listing { title: dir_title(request_path), content }
}

} // verus!
