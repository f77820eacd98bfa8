//! The navigation as a list of its own, in the order in which the entries
//! were read.

use crate::error::Error;
use crate::templates::{join_texts, joined};
use crate::texts;
use crate::utils::path::{is_hidden_path, PathExt};
use crate::utils::{
    display_name_of, format_link, is_shown_dir, last_component, link_item, to_display_and_fname,
    DirEntry,
};
use vstd::prelude::*;

verus! {

/// Whether the list cannot be made because of `entry`: its kind could not be
/// read, or it is a directory whose path ends in no name.
pub open spec fn fails(entry: DirEntry) -> bool {
    match entry.is_dir {
        Err(_) => true,
        Ok(dir) => dir && is_hidden_path(entry.path@) is None,
    }
}

/// Why the list cannot be made because of `entry`, in words.
pub open spec fn failure_text(entry: DirEntry) -> Seq<char> {
    match entry.is_dir {
        Err(reason) => reason@,
        Ok(_) => "Generic Invalid path "@ + entry.path@,
    }
}

/// Whether `entries[at]` is the first entry because of which the list cannot
/// be made.
pub open spec fn is_first_failure(entries: Seq<DirEntry>, at: int) -> bool {
    &&& 0 <= at < entries.len()
    &&& fails(entries[at])
    &&& forall|before: int| 0 <= before < at ==> !fails(#[trigger] entries[before])
}

/// The link that the list holds for `entry`, where the entry is a directory
/// that is not hidden.
pub open spec fn list_link(entry: DirEntry) -> Option<Seq<char>> {
    if is_shown_dir(entry) {
        Some(link_item(last_component(entry.path@), display_name_of(entry.path@)))
    } else {
        None
    }
}

/// The markup of the list over `entries`: the link home, then the links to
/// the directories that are not hidden, one to a line.
pub open spec fn list_markup(entries: Seq<DirEntry>) -> Seq<char> {
    "<ul><li><a href=\"/\">Home</a></li>"@ + joined(
        entries.filter_map(|entry: DirEntry| list_link(entry)),
        "\n"@,
    ) + "</ul>"@
}

/// The navigation of the site as a list of its own: a link home, then a link
/// to each directory among `entries` that is not hidden, in the order in
/// which they stand. Fails at the first entry whose kind could not be read,
/// or that is a directory whose path ends in no name.
pub fn nav(entries: &Vec<DirEntry>) -> (markup: Result<String, Error>)
    ensures
        markup is Ok <==> forall|i: int| 0 <= i < entries@.len() ==> !fails(#[trigger] entries@[i]),
        markup matches Ok(m) ==> m@ == list_markup(entries@),
        markup matches Err(e) ==> exists|at: int|
            is_first_failure(entries@, at) && e.message_text() == failure_text(
                #[trigger] entries@[at],
            ),
{
    let mut links: Vec<String> = Vec::new();
    let ghost pick = |entry: DirEntry| list_link(entry);
    let mut at: usize = 0;
    proof {
        assert(entries@.take(0) =~= Seq::<DirEntry>::empty());
        assert(texts(links@) =~= Seq::<Seq<char>>::empty());
    }
    while at < entries.len()
        invariant
            at <= entries@.len(),
            pick == |entry: DirEntry| list_link(entry),
            texts(links@) == entries@.take(at as int).filter_map(pick),
            forall|i: int| 0 <= i < at ==> !fails(#[trigger] entries@[i]),
        decreases entries@.len() - at,
    {
        let entry = &entries[at];
        let ghost before = links@;
        proof {
            entries@.lemma_filter_map_take_succ(pick, at as int);
        }
        let is_dir = match &entry.is_dir {
            Ok(dir) => *dir,
            Err(reason) => {
                assert(is_first_failure(entries@, at as int));
                return Err(Error::IO(reason.clone()));
            },
        };
        if is_dir {
            let hidden = match entry.path.as_str().is_hidden() {
                Some(hidden) => hidden,
                None => {
                    proof {
                        assert(is_first_failure(entries@, at as int));
                        assert("Generic "@ + ("Invalid path "@ + entry.path@)
                            =~= "Generic Invalid path "@ + entry.path@) by {
                            reveal_strlit("Generic ");
                            reveal_strlit("Invalid path ");
                            reveal_strlit("Generic Invalid path ");
                        }
                    }
                    return Err(
                        Error::Generic("Invalid path ".to_owned().concat(entry.path.as_str())),
                    );
                },
            };
            if !hidden {
                match to_display_and_fname(entry) {
                    Ok(names) => {
                        let link = format_link(names.1.as_str(), names.0.as_str());
                        links.push(link);
                        assert(texts(links@) =~= texts(before) + seq![link@]);
                    },
                    Err(_) => {
                        return Err(
                            Error::Generic("Invalid path ".to_owned().concat(entry.path.as_str())),
                        );
                    },
                }
            } else {
                assert(texts(links@) =~= texts(before) + Seq::<Seq<char>>::empty());
            }
        } else {
            assert(texts(links@) =~= texts(before) + Seq::<Seq<char>>::empty());
        }
        at = at + 1;
    }
    proof {
        assert(entries@.take(at as int) =~= entries@);
    }
    let mut markup = "<ul><li><a href=\"/\">Home</a></li>".to_owned();
    markup.append(join_texts(&links, "\n").as_str());
    markup.append("</ul>");
    Ok(markup)
}

} // verus!
