//! The parts of a page, before they are set into its frame.

use crate::date::{displayed_date, Date};
use crate::texts;
use crate::utils::{nav, nav_markup, DirEntry};
use vstd::prelude::*;

verus! {

/// What stands between two tags of a page.
pub const TAG_SEPARATOR: &'static str = " \u{c2}\u{b7} ";

/// The parts of a page, each as markup.
#[derive(Debug)]
pub struct PageTemplate {
    pub title: String,
    pub last_modified: String,
    pub tags: String,
    pub content: String,
    pub nav: String,
}

impl PageTemplate {
    /// A builder that has been told nothing yet.
    pub fn builder() -> (builder: PageTemplateBuilder<NoTitle>)
        ensures
            builder.last_modified is None,
            builder.tags is None,
    {
        PageTemplateBuilder { title: NoTitle, last_modified: None, tags: None }
    }
}

/// Collects what a page is made of. The page can be built once the title has
/// been given.
#[derive(Debug)]
pub struct PageTemplateBuilder<T> {
    pub title: T,
    pub last_modified: Option<Date>,
    pub tags: Option<Vec<String>>,
}

impl PageTemplateBuilder<NoTitle> {
    /// Tells the builder the title of the page.
    pub fn title(self, title: &str) -> (builder: PageTemplateBuilder<Title>)
        ensures
            builder.title.0@ == title@,
            builder.last_modified == self.last_modified,
            builder.tags == self.tags,
    {
        PageTemplateBuilder {
            title: Title(title.to_owned()),
            last_modified: self.last_modified,
            tags: self.tags,
        }
    }
}

impl<T> PageTemplateBuilder<T> {
    /// Tells the builder the day on which the page was last changed.
    pub fn last_modified(self, last_modified: Date) -> (builder: PageTemplateBuilder<T>)
        ensures
            builder.title == self.title,
            builder.last_modified == Some(last_modified),
            builder.tags == self.tags,
    {
        PageTemplateBuilder {
            title: self.title,
            last_modified: Some(last_modified),
            tags: self.tags,
        }
    }

    /// Tells the builder the tags of the page.
    pub fn tags(self, tags: Vec<String>) -> (builder: PageTemplateBuilder<T>)
        ensures
            builder.title == self.title,
            builder.last_modified == self.last_modified,
            builder.tags == Some(tags),
    {
        PageTemplateBuilder {
            title: self.title,
            last_modified: self.last_modified,
            tags: Some(tags),
        }
    }

    /// Tells the builder the tags of the page, where it has any: without
    /// tags the builder stays as it is.
    pub fn tags_opt(self, tags: Option<Vec<String>>) -> (builder: PageTemplateBuilder<T>)
        ensures
            builder.title == self.title,
            builder.last_modified == self.last_modified,
            builder.tags == match tags {
                Some(t) => Some(t),
                None => self.tags,
            },
    {
        match tags {
            Some(t) => self.tags(t),
            None => self,
        }
    }
}

/// `items` one after the other, with `separator` between each two.
pub open spec fn joined(items: Seq<Seq<char>>, separator: Seq<char>) -> Seq<char>
    decreases items.len(),
{
    if items.len() == 0 {
        Seq::empty()
    } else if items.len() == 1 {
        items[0]
    } else {
        joined(items.drop_last(), separator) + separator + items.last()
    }
}

/// The line of a page that says when it was last changed; nothing where the
/// day is not known or cannot be written out.
pub open spec fn last_modified_markup(last_modified: Option<Date>) -> Seq<char> {
    match last_modified {
        Some(date) => match displayed_date(date.year as int, date.ordinal as int) {
            Some(text) => "<p class=\"last_modified\">Last updated: "@ + text + "</p>"@,
            None => Seq::empty(),
        },
        None => Seq::empty(),
    }
}

/// The line of a page that holds its tags; nothing where the page has none
/// to show.
pub open spec fn tags_markup(tags: Option<Seq<Seq<char>>>) -> Seq<char> {
    match tags {
        Some(t) => "<p class=\"tags\">"@ + joined(t, TAG_SEPARATOR@) + "</p>"@,
        None => Seq::empty(),
    }
}

/// `items` one after the other, with `separator` between each two.
pub fn join_texts(items: &Vec<String>, separator: &str) -> (text: String)
    ensures
        text@ == joined(texts(items@), separator@),
{
    let mut text = String::new();
    let mut at: usize = 0;
    proof {
        assert(texts(items@).take(0) =~= Seq::<Seq<char>>::empty());
    }
    while at < items.len()
        invariant
            at <= items@.len(),
            text@ == joined(texts(items@).take(at as int), separator@),
        decreases items@.len() - at,
    {
        proof {
            let next = texts(items@).take(at + 1);
            assert(next.drop_last() =~= texts(items@).take(at as int));
            assert(next.last() == items@[at as int]@);
            if at == 0 {
                assert(next[0] == items@[0]@);
            }
        }
        if at > 0 {
            text.append(separator);
        }
        text.append(items[at].as_str());
        at = at + 1;
    }
    proof {
        assert(texts(items@).take(at as int) =~= texts(items@));
    }
    text
}

impl PageTemplateBuilder<Title> {
    /// The page that the builder has been told of, with the markup `content`
    /// as its body and the navigation over the `entries` of the root of the
    /// site.
    pub fn build(self, entries: &Vec<DirEntry>, content: &str) -> (page: PageTemplate)
        ensures
            page.title@ == self.title.0@,
            page.content@ == content@,
            page.last_modified@ == last_modified_markup(self.last_modified),
            page.tags@ == tags_markup(
                match self.tags {
                    Some(t) => Some(texts(t@)),
                    None => None,
                },
            ),
            page.nav@ == nav_markup(entries@),
    {
        let last_modified = match self.last_modified {
            Some(date) => match date.to_text() {
                Some(text) => {
                    let mut line = "<p class=\"last_modified\">Last updated: ".to_owned();
                    line.append(text.as_str());
                    line.append("</p>");
                    line
                },
                None => String::new(),
            },
            None => String::new(),
        };
        let tags = match &self.tags {
            Some(t) => {
                let mut line = "<p class=\"tags\">".to_owned();
                line.append(join_texts(t, TAG_SEPARATOR).as_str());
                line.append("</p>");
                line
            },
            None => String::new(),
        };
        PageTemplate {
            title: self.title.0,
            content: content.to_owned(),
            last_modified,
            tags,
            nav: nav(entries),
        }
    }
}

/// Marks a builder that has not been told the title.
#[derive(Clone, Copy, Debug)]
pub struct NoTitle;

/// The title that a builder has been told.
#[derive(Clone, Debug)]
pub struct Title(pub String);

} // verus!
