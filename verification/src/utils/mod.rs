//! Helpers for the entries of a directory and the names shown for them.

pub mod html;
pub mod iterator;
pub mod order;
pub mod path;
pub mod text;

use crate::utils::order::{
    each_in_order, lemma_sorted_by_name, named, sort_by_name, sorted_by_name,
};
use crate::utils::path::{
    extension, extension_of, file_name, has_file_name, is_hidden_path, last_component,
    lemma_file_name_of_name, root_of_name, PathExt,
};
use vstd::prelude::*;

verus! {

/// Why an entry of a directory could not be shown.
#[derive(Debug)]
pub enum Error {
    /// The path ends in no name of which the part before the first `.` could
    /// be taken.
    FileRoot(String),
    /// The path ends in no name.
    FileName(String),
    /// The path names no entry.
    InvalidPath(String),
    /// There is nothing to navigate to.
    EmptyNav,
    /// Reading the directory failed; the field holds the reason in words.
    IO(String),
}

impl Error {
    /// The error in words, as the contracts see them.
    pub open spec fn message_text(&self) -> Seq<char> {
        match *self {
            Error::FileRoot(p) => "Could not get file root of "@ + p@,
            Error::FileName(p) => "Could not get file name of "@ + p@,
            Error::InvalidPath(p) => "Invalid path: "@ + p@,
            Error::EmptyNav => "Nav is empty"@,
            Error::IO(reason) => reason@,
        }
    }

    /// The error in words.
    pub fn message(&self) -> (text: String)
        ensures
            text@ == self.message_text(),
    {
        match self {
            Error::FileRoot(p) => "Could not get file root of ".to_owned().concat(p.as_str()),
            Error::FileName(p) => "Could not get file name of ".to_owned().concat(p.as_str()),
            Error::InvalidPath(p) => "Invalid path: ".to_owned().concat(p.as_str()),
            Error::EmptyNav => "Nav is empty".to_owned(),
            Error::IO(reason) => reason.clone(),
        }
    }
}

/// An entry of a directory, as read from the file system: its path, and
/// whether it is a directory, or why that could not be found out.
#[derive(Debug)]
pub struct DirEntry {
    pub path: String,
    pub is_dir: Result<bool, String>,
}

/// `text` in title case: its words capitalised and set apart by spaces.
pub uninterp spec fn title_case(text: Seq<char>) -> Seq<char>;

/// Has `convert_case` put `text` into `Case::Title`, through
/// `Casing::to_case`. Trusted: the result depends on `text` alone.
#[verifier::external_body]
fn to_title_case(text: &str) -> (title: String)
    ensures
        title@ == title_case(text@),
{
    convert_case::Casing::to_case(&text, convert_case::Case::Title)
}

/// The name under which an entry is shown whose name begins with `root`:
/// `root` in title case.
pub fn display_name(root: &str) -> (name: String)
    ensures
        name@ == title_case(root@),
{
    to_title_case(root)
}

/// Whether two texts are the same.
pub fn same_text(left: &str, right: &str) -> (same: bool)
    ensures
        same == (left@ == right@),
{
    left.to_owned() == right.to_owned()
}

/// Whether the name that `path` ends in has the extension of a markdown
/// file.
pub open spec fn is_markdown(path: Seq<char>) -> bool {
    extension_of(path) == Some("md"@)
}

/// Whether `entry` belongs in a listing: it is not hidden, and it is a
/// directory or a markdown file.
pub open spec fn is_shown_entry(entry: DirEntry) -> bool {
    &&& is_hidden_path(entry.path@) == Some(false)
    &&& entry.is_dir matches Ok(dir)
    &&& dir || is_markdown(entry.path@)
}

/// Whether `entry` belongs in the navigation: it is a directory that is not
/// hidden.
pub open spec fn is_shown_dir(entry: DirEntry) -> bool {
    &&& is_hidden_path(entry.path@) == Some(false)
    &&& entry.is_dir matches Ok(dir)
    &&& dir
}

/// Whether the name that `path` ends in has the extension of a markdown file.
pub fn has_markdown_extension(path: &str) -> (markdown: bool)
    ensures
        markdown == is_markdown(path@),
{
    match extension(path) {
        Some(ext) => same_text(ext, "md"),
        None => false,
    }
}

/// Whether `entry` belongs in a listing. An entry does that is not hidden and
/// is a directory or a markdown file. Fails where the path ends in no name,
/// and where the kind of the entry could not be read.
pub fn is_shown(entry: &DirEntry) -> (shown: Result<bool, Error>)
    ensures
        match is_hidden_path(entry.path@) {
            None => shown matches Err(Error::InvalidPath(p)) && p@ == entry.path@,
            Some(hidden) => match entry.is_dir {
                Err(reason) => shown matches Err(Error::IO(r)) && r@ == reason@,
                Ok(dir) => shown == Ok::<bool, Error>(
                    !hidden && (is_markdown(entry.path@) || dir),
                ),
            },
        },
        shown == Ok::<bool, Error>(true) <==> is_shown_entry(*entry),
{
    let hidden = match entry.path.as_str().is_hidden() {
        Some(hidden) => hidden,
        None => {
            return Err(Error::InvalidPath(entry.path.clone()));
        },
    };
    let is_dir = match &entry.is_dir {
        Ok(dir) => *dir,
        Err(reason) => {
            return Err(Error::IO(reason.clone()));
        },
    };
    let is_md = has_markdown_extension(entry.path.as_str());
    Ok(!hidden && (is_md || is_dir))
}

/// Whether `entry` belongs in the navigation. An entry does that is a
/// directory and not hidden. Fails where the path ends in no name, and where
/// the kind of the entry could not be read.
pub fn is_shown_dir_only(entry: &DirEntry) -> (shown: Result<bool, Error>)
    ensures
        match is_hidden_path(entry.path@) {
            None => shown matches Err(Error::InvalidPath(p)) && p@ == entry.path@,
            Some(hidden) => match entry.is_dir {
                Err(reason) => shown matches Err(Error::IO(r)) && r@ == reason@,
                Ok(dir) => shown == Ok::<bool, Error>(!hidden && dir),
            },
        },
        shown == Ok::<bool, Error>(true) <==> is_shown_dir(*entry),
{
    let hidden = match entry.path.as_str().is_hidden() {
        Some(hidden) => hidden,
        None => {
            return Err(Error::InvalidPath(entry.path.clone()));
        },
    };
    let is_dir = match &entry.is_dir {
        Ok(dir) => *dir,
        Err(reason) => {
            return Err(Error::IO(reason.clone()));
        },
    };
    Ok(!hidden && is_dir)
}

/// The name shown for the entry at `path`: the name that the path ends in,
/// up to its first `.`, in title case.
pub open spec fn display_name_of(path: Seq<char>) -> Seq<char> {
    title_case(root_of_name(last_component(path)))
}

/// The name under which `entry` is shown, and the name it has in its
/// directory. Fails where the path of the entry ends in no name.
pub fn to_display_and_fname(entry: &DirEntry) -> (names: Result<(String, String), Error>)
    ensures
        has_file_name(entry.path@) ==> (names matches Ok(n) && n.0@ == display_name_of(
            entry.path@,
        ) && n.1@ == last_component(entry.path@)),
        !has_file_name(entry.path@) ==> (names matches Err(Error::FileName(p)) && p@
            == entry.path@),
{
    let name = match file_name(entry.path.as_str()) {
        Some(name) => name,
        None => {
            return Err(Error::FileName(entry.path.clone()));
        },
    };
    proof {
        lemma_file_name_of_name(entry.path@);
    }
    match name.file_root() {
        Some(root) => Ok((display_name(root), name.to_owned())),
        None => Err(Error::FileRoot(entry.path.clone())),
    }
}

/// The markup of one link of a list: to `path` below the root of the site,
/// under the name `name`.
pub open spec fn link_item(path: Seq<char>, name: Seq<char>) -> Seq<char> {
    "<li><a href=\"/"@ + path + "\">"@ + name + "</a></li>"@
}

/// The markup of the link that leads home.
pub open spec fn home_link() -> Seq<char> {
    "<li><a href=\"/\">Home</a></li>"@
}

/// The markup of the links to `items`, one after the other. Each item holds
/// the name to show and the path to link to.
pub open spec fn link_items(items: Seq<(Seq<char>, Seq<char>)>) -> Seq<char>
    decreases items.len(),
{
    if items.len() == 0 {
        Seq::empty()
    } else {
        link_items(items.drop_last()) + link_item(items.last().1, items.last().0)
    }
}

/// What the navigation holds for `entry`: the name to show and the path to
/// link to, where the entry is a directory that is not hidden.
pub open spec fn nav_item(entry: DirEntry) -> Option<(Seq<char>, Seq<char>)> {
    if is_shown_dir(entry) {
        Some((display_name_of(entry.path@), last_component(entry.path@)))
    } else {
        None
    }
}

/// The items of the navigation over `entries`, in natural order of the names
/// shown.
pub open spec fn nav_items(entries: Seq<DirEntry>) -> Seq<(Seq<char>, Seq<char>)> {
    sorted_by_name(entries.filter_map(|entry: DirEntry| nav_item(entry)), false)
}

/// The markup of the navigation over `entries`: the link home, then a link
/// to each directory that is not hidden, in natural order of the names shown.
pub open spec fn nav_markup(entries: Seq<DirEntry>) -> Seq<char> {
    home_link() + link_items(nav_items(entries))
}

/// The markup of one link of a list.
pub fn format_link(path: &str, name: &str) -> (markup: String)
    ensures
        markup@ == link_item(path@, name@),
{
    let mut markup = "<li><a href=\"/".to_owned();
    markup.append(path);
    markup.append("\">");
    markup.append(name);
    markup.append("</a></li>");
    markup
}

/// The directories among `entries` that the navigation shows, each with the
/// name to show and the path to link to, in natural order of the names.
pub fn nav_entries(entries: &Vec<DirEntry>) -> (items: Vec<(String, String)>)
    ensures
        named(items@) == nav_items(entries@),
        each_in_order(named(items@), false),
        forall|i: int|
            0 <= i < items@.len() ==> is_nav_item_of(entries@, #[trigger] named(items@)[i]),
{
    let mut items: Vec<(String, String)> = Vec::new();
    let ghost pick = |entry: DirEntry| nav_item(entry);
    let mut at: usize = 0;
    proof {
        assert(entries@.take(0) =~= Seq::<DirEntry>::empty());
    }
    while at < entries.len()
        invariant
            at <= entries@.len(),
            pick == |entry: DirEntry| nav_item(entry),
            named(items@) == entries@.take(at as int).filter_map(pick),
        decreases entries@.len() - at,
    {
        let entry = &entries[at];
        let ghost before = items@;
        proof {
            entries@.lemma_filter_map_take_succ(pick, at as int);
        }
        let shown = match is_shown_dir_only(entry) {
            Ok(shown) => shown,
            Err(_) => false,
        };
        if shown {
            match to_display_and_fname(entry) {
                Ok(names) => {
                    items.push(names);
                    assert(named(items@) =~= named(before).push((names.0@, names.1@)));
                },
                Err(_) => {},
            }
        }
        at = at + 1;
    }
    proof {
        assert(entries@.take(at as int) =~= entries@);
    }
    let sorted = sort_by_name(items, false);
    proof {
        lemma_nav_items_come_from_entries(entries@);
        assert forall|i: int| 0 <= i < sorted@.len() implies is_nav_item_of(
            entries@,
            #[trigger] named(sorted@)[i],
        ) by {
            assert(named(sorted@)[i] == nav_items(entries@)[i]);
        }
    }
    sorted
}

/// Whether `item` stands in the navigation for one of `entries`: for a
/// directory among them that is not hidden.
pub open spec fn is_nav_item_of(entries: Seq<DirEntry>, item: (Seq<char>, Seq<char>)) -> bool {
    exists|j: int|
        0 <= j < entries.len() && is_shown_dir(#[trigger] entries[j]) && nav_item(entries[j])
            == Some(item)
}

/// Every item of the navigation stands for a directory among the entries
/// that is not hidden: no hidden entry and no file is linked to.
pub proof fn lemma_nav_items_come_from_entries(entries: Seq<DirEntry>)
    ensures
        forall|i: int|
            0 <= i < nav_items(entries).len() ==> is_nav_item_of(
                entries,
                #[trigger] nav_items(entries)[i],
            ),
{
    broadcast use vstd::seq_lib::group_to_multiset_ensures;

    let pick = |entry: DirEntry| nav_item(entry);
    let kept = entries.filter_map(pick);
    lemma_sorted_by_name(kept, false);
    assert forall|i: int| 0 <= i < nav_items(entries).len() implies is_nav_item_of(
        entries,
        #[trigger] nav_items(entries)[i],
    ) by {
        let item = nav_items(entries)[i];
        assert(nav_items(entries).contains(item));
        assert(kept.to_multiset().count(item) > 0);
        assert(kept.contains(item));
        entries.lemma_filter_map_contains(pick, item);
        let j = choose|j: int| 0 <= j < entries.len() && pick(entries[j]) == Some(item);
        assert(nav_item(entries[j]) == Some(item));
        assert(is_shown_dir(entries[j]));
    }
}

/// The markup of the links to `items`, one after the other.
pub fn format_links_of(items: &Vec<(String, String)>) -> (markup: String)
    ensures
        markup@ == link_items(named(items@)),
{
    let mut markup = String::new();
    let mut at: usize = 0;
    proof {
        assert(named(items@).take(0) =~= Seq::<(Seq<char>, Seq<char>)>::empty());
    }
    while at < items.len()
        invariant
            at <= items@.len(),
            markup@ == link_items(named(items@).take(at as int)),
        decreases items@.len() - at,
    {
        let item = &items[at];
        let link = format_link(item.1.as_str(), item.0.as_str());
        proof {
            let next = named(items@).take(at + 1);
            assert(next.drop_last() =~= named(items@).take(at as int));
            assert(next.last() == (item.0@, item.1@));
        }
        markup.append(link.as_str());
        at = at + 1;
    }
    proof {
        assert(named(items@).take(at as int) =~= named(items@));
    }
    markup
}

/// The navigation of the site: a link home, then a link to each directory
/// among `entries` that is not hidden, in natural order of the names shown.
pub fn nav(entries: &Vec<DirEntry>) -> (markup: String)
    ensures
        markup@ == nav_markup(entries@),
{
    let items = nav_entries(entries);
    let mut markup = "<li><a href=\"/\">Home</a></li>".to_owned();
    let links = format_links_of(&items);
    markup.append(links.as_str());
    markup
}

} // verus!
