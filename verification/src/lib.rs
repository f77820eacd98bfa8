//! A small web site served from a directory tree of markdown files and
//! images, with a calendar of daily readings.

pub mod app_state;
pub mod date;
pub mod error;
pub mod lectionary;
pub mod markdown;
pub mod readings;
pub mod templates;
pub mod utils;

use crate::utils::path::{
    extension, extension_of, separators_start, skip_separators, trim_separators, with_extension,
    with_extension_of,
};
use crate::utils::text::chars_of;
use vstd::prelude::*;

verus! {

/// The title of the site, and of every page that names none of its own.
pub const SITE_TITLE: &'static str = "Daniel's Website";

/// What a page says of itself at its head.
#[derive(Debug)]
pub struct Metadata {
    pub title: String,
    pub tags: Option<Vec<String>>,
}

/// The texts of `strings`, one for one.
pub open spec fn texts(strings: Seq<String>) -> Seq<Seq<char>> {
    strings.map_values(|string: String| string@)
}

/// `Metadata` as the contracts see it.
pub struct MetadataView {
    pub title: Seq<char>,
    pub tags: Option<Seq<Seq<char>>>,
}

impl View for Metadata {
    type V = MetadataView;

    open spec fn view(&self) -> MetadataView {
        MetadataView {
            title: self.title@,
            tags: match self.tags {
                Some(tags) => Some(texts(tags@)),
                None => None,
            },
        }
    }
}

/// What stands for the head of a page that has none: the title of the site,
/// and no tags.
pub open spec fn default_metadata() -> MetadataView {
    MetadataView { title: SITE_TITLE@, tags: None }
}

impl Default for Metadata {
    fn default() -> (metadata: Self)
        ensures
            metadata@ == default_metadata(),
    {
        Metadata { title: SITE_TITLE.to_owned(), tags: None }
    }
}

/// The path of a request and what it asks of it.
#[derive(Debug)]
pub struct PathAndQuery {
    /// The path, as it stands before the `?`.
    pub path: String,
    /// What stands behind the `?`, where there is one.
    pub query: Option<String>,
}

/// `PathAndQuery` as the contracts see it.
pub struct PathAndQueryView {
    pub path: Seq<char>,
    pub query: Option<Seq<char>>,
}

impl View for PathAndQuery {
    type V = PathAndQueryView;

    open spec fn view(&self) -> PathAndQueryView {
        PathAndQueryView {
            path: self.path@,
            query: match self.query {
                Some(q) => Some(q@),
                None => None,
            },
        }
    }
}

/// Whether `path` is in normal form: it is the root, or it neither ends in a
/// separator nor begins with two.
pub open spec fn is_normal_path(path: Seq<char>) -> bool {
    ||| path == seq!['/']
    ||| {
        &&& !(path.len() > 0 && path.last() == '/')
        &&& !(path.len() >= 2 && path[0] == '/' && path[1] == '/')
    }
}

/// The normal form of `path`: `path` itself where it is in normal form, else
/// one separator followed by `path` without the separators at its two ends.
pub open spec fn normalized_path(path: Seq<char>) -> Seq<char> {
    if is_normal_path(path) {
        path
    } else {
        seq!['/'] + skip_separators(trim_separators(path))
    }
}

/// The normal form of a path with its query: the path in normal form, the
/// query as it was.
pub open spec fn normalized(target: PathAndQueryView) -> PathAndQueryView {
    PathAndQueryView { path: normalized_path(target.path), query: target.query }
}

/// How a path is written with its query: the two with a `?` between them,
/// or the path alone.
pub open spec fn path_and_query_text(target: PathAndQueryView) -> Seq<char> {
    match target.query {
        Some(q) => target.path + seq!['?'] + q,
        None => target.path,
    }
}

/// What is left of a path without the separators at its two ends neither
/// begins nor ends with a separator.
pub proof fn lemma_trimmed_ends(path: Seq<char>)
    ensures
        skip_separators(trim_separators(path)).len() > 0 ==> skip_separators(
            trim_separators(path),
        )[0] != '/' && skip_separators(trim_separators(path)).last() != '/',
{
    lemma_trim_end(path);
    lemma_skip_start(trim_separators(path));
}

/// A path without the separators that end it does not end in one.
pub proof fn lemma_trim_end(path: Seq<char>)
    ensures
        trim_separators(path).len() > 0 ==> trim_separators(path).last() != '/',
    decreases path.len(),
{
    if path.len() > 0 && path.last() == '/' {
        lemma_trim_end(path.drop_last());
    }
}

/// A path without the separators that begin it does not begin with one, and
/// ends as it did where anything is left of it.
pub proof fn lemma_skip_start(path: Seq<char>)
    ensures
        skip_separators(path).len() > 0 ==> skip_separators(path)[0] != '/' && skip_separators(
            path,
        ).last() == path.last(),
    decreases path.len(),
{
    if path.len() > 0 && path[0] == '/' {
        lemma_skip_start(path.drop_first());
    }
}

/// The normal form of a path is in normal form.
pub proof fn lemma_normalized_is_normal(path: Seq<char>)
    ensures
        is_normal_path(normalized_path(path)),
{
    if !is_normal_path(path) {
        let inner = skip_separators(trim_separators(path));
        let normal = seq!['/'] + inner;
        lemma_trimmed_ends(path);
        if inner.len() == 0 {
            assert(normal =~= seq!['/']);
        } else {
            assert(normal.last() == inner.last());
            assert(normal[1] == inner[0]);
        }
    }
}

/// Bringing a path into normal form a second time changes nothing.
pub proof fn lemma_normalize_idempotent(path: Seq<char>)
    ensures
        normalized_path(normalized_path(path)) == normalized_path(path),
{
    lemma_normalized_is_normal(path);
}

/// Bringing a path with its query into normal form a second time changes
/// nothing; the root stays the root, whatever is asked of it; and the query
/// is never touched.
pub proof fn lemma_normalize_laws(target: PathAndQueryView)
    ensures
        normalized(normalized(target)) == normalized(target),
        normalized(target).query == target.query,
        target.path == seq!['/'] ==> normalized(target) == target,
        normalized(target).path != seq!['/'] ==> !(normalized(target).path.len() > 0
            && normalized(target).path.last() == '/'),
{
    lemma_normalize_idempotent(target.path);
    lemma_normalized_is_normal(target.path);
}

/// Brings the path of a request into normal form: separators at its end go,
/// and so do doubled ones at its beginning; the root stays as it is. What is
/// asked of the path is left alone.
pub fn normalize_path(target: PathAndQuery) -> (normal: PathAndQuery)
    ensures
        normal@ == normalized(target@),
{
    let chars = chars_of(target.path.as_str());
    let len = chars.len();
    let ends_in_separator = len > 0 && chars[len - 1] == '/';
    let begins_with_two = len >= 2 && chars[0] == '/' && chars[1] == '/';
    if len == 1 && chars[0] == '/' {
        assert(target.path@ =~= seq!['/']);
        return target;
    }
    if !ends_in_separator && !begins_with_two {
        return target;
    }
    let end = separators_start(&chars, len);
    let mut start: usize = 0;
    while start < end && chars[start] == '/'
        invariant
            start <= end <= chars@.len(),
            forall|j: int| 0 <= j < start ==> chars@[j] == '/',
        decreases end - start,
    {
        start = start + 1;
    }
    proof {
        crate::utils::path::lemma_trim_separators(target.path@, end as int);
        crate::utils::path::lemma_skip_separators(target.path@.take(end as int), start as int);
        reveal_strlit("/");
        assert("/"@ =~= seq!['/']);
    }
    let mut path = "/".to_owned();
    let inner = target.path.as_str().substring_char(start, end);
    assert(inner@ =~= target.path@.take(end as int).skip(start as int));
    path.append(inner);
    PathAndQuery { path, query: target.query }
}

/// How `target` is written: the path, and behind a `?` what is asked of it.
pub fn path_and_query(target: &PathAndQuery) -> (text: String)
    ensures
        text@ == path_and_query_text(target@),
{
    let mut text = target.path.clone();
    match &target.query {
        Some(q) => {
            proof {
                reveal_strlit("?");
                assert("?"@ =~= seq!['?']);
            }
            text.append("?");
            text.append(q.as_str());
        },
        None => {},
    }
    text
}

/// What a request asks for, once its path has been looked up.
#[derive(Debug)]
pub enum ResolvedTarget {
    /// A directory, to be listed.
    Directory(String),
    /// A page, to be rendered from the markdown file named.
    MarkdownDocument(String),
    /// A file, to be sent as it is.
    StaticFile(String),
}

/// The path below the root of the site that the path of a request stands
/// for: the path without the separators that begin it. The root stands for
/// the empty path.
pub fn request_path(path: &str) -> (relative: &str)
    ensures
        relative@ == skip_separators(path@),
{
    let chars = chars_of(path);
    let start = crate::utils::path::separators_end(&chars, 0);
    proof {
        crate::utils::path::lemma_skip_separators(path@, start as int);
    }
    let relative = path.substring_char(start, chars.len());
    assert(relative@ =~= path@.skip(start as int));
    relative
}

/// Decides what is to be served for `request_path`, a path below the root of
/// the site. Where a directory lies there, the directory is listed. Else a
/// path whose name has no extension stands for the markdown file of that
/// name, and any other path for the file it names.
pub fn resolve(request_path: &str, is_dir: bool) -> (target: ResolvedTarget)
    ensures
        is_dir ==> (target matches ResolvedTarget::Directory(p) && p@ == request_path@),
        !is_dir && extension_of(request_path@) is None ==> (target matches
            ResolvedTarget::MarkdownDocument(p) && p@ == with_extension_of(
            request_path@,
            "md"@,
        )),
        !is_dir && extension_of(request_path@) is Some ==> (target matches
            ResolvedTarget::StaticFile(p) && p@ == request_path@),
{
    if is_dir {
        ResolvedTarget::Directory(request_path.to_owned())
    } else if extension(request_path).is_none() {
        ResolvedTarget::MarkdownDocument(with_extension(request_path, "md"))
    } else {
        ResolvedTarget::StaticFile(request_path.to_owned())
    }
}

/// What a page shows in place of what was asked for, where that could not be
/// made.
pub const ERROR_PAGE: &'static str = "<h1>Oops!</h1><p>Something's not right with this page</p><p>It could be a problem with the server, or the page may simply not exist.</p><p>Try navigating back to the home page by clicking the \"Home\" button in the navigation bar.</p>";

/// The whole page that is sent where not even the page that tells of an
/// error could be made. It needs nothing but itself.
pub const FALLBACK_ERROR: &'static str = "<!doctype html><html lang=en><meta charset=UTF-8><meta content=\"width=device-width,initial-scale=1\" name=viewport><style>*,::after,::before{box-sizing:border-box;scroll-margin:5em 0 0;border-radius:.25em}:root{--max-width:80rem;--main-width:min(var(--max-width), 95vw);--fw-norm:300;--fw-bold:900;--ff-sans:\"AlegreyaSans\",sans-serif;--ff-mono:\"Source Code Pro\",monospace;--base-00:#292828;--base-01:#32302f;--base-02:#504945;--base-03:#665c54;--base-04:#bdae93;--base-06:#ddc7a1;--base-06:#ebdbb2;--base-07:#fbf1c7;--base-08:#ea6962;--base-09:#e78a4e;--base-0A:#d8a657;--base-0B:#a9b665;--base-0C:#89b482;--base-0D:#7daea3;--base-0E:#d3869b;--base-0F:#bd6f3e;--bs:0.25rem 0.25rem 0.75rem rgba(0, 0, 0, 0.25),0.125rem 0.125rem 0.25rem rgba(0, 0, 0, 0.15)}@font-face{font-family:AlegreyaSans;src:url(/.fonts/AlegreyaSans-Medium.eot);src:url(/.fonts/AlegreyaSans-Medium.woff) format(\"woff\"),url(/.fonts/AlegreyaSans-Medium.woff2) format(\"woff2\")}@supports (font-size:clamp(1rem,1vw,1rem)){:root{--fs--2:clamp(0.51rem, 0.23vw + 0.46rem, 0.74rem);--fs--1:clamp(0.61rem, 0.37vw + 0.54rem, 0.98rem);--fs-0:clamp(0.73rem, 0.58vw + 0.62rem, 1.31rem);--fs-1:clamp(0.88rem, 0.86vw + 0.71rem, 1.75rem);--fs-2:clamp(1.05rem, 1.27vw + 0.81rem, 2.33rem);--fs-3:clamp(1.26rem, 1.83vw + 0.92rem, 3.11rem);--fs-4:clamp(1.51rem, 2.6vw + 1.02rem, 4.15rem);--fs-5:clamp(1.81rem, 3.67vw + 1.13rem, 5.53rem)}}@supports not (font-size:clamp(1rem,1vw,1rem)){:root{--fs--2:0.51rem;--fs--1:0.61rem;--fs-0:0.73rem;--fs-1:0.88rem;--fs-2:1.05rem;--fs-3:1.26rem;--fs-4:1.51rem;--fs-5:1.81rem}@media screen and (min-width:1920px){:root{--fs--2:0.74rem;--fs--1:0.98rem;--fs-0:1.31rem;--fs-1:1.75rem;--fs-2:2.33rem;--fs-3:3.11rem;--fs-4:4.15rem;--fs-5:5.53rem}}}html{scroll-behaviour:smooth;margin:0;padding:0}body{background:var(--base-01);color:var(--base-06);font-family:var(--ff-sans);font-size:var(--fs-0);line-height:1.6;padding:0;margin:0;min-height:100vh;display:flex;flex-direction:column}main{width:var(--main-width);margin:5em auto 3em;padding:0 3em;position:relative;text-align:center}p{margin:1em 0 .5em 0}a{color:var(--base-06);opacity:1;position:relative;transition:opacity 75ms ease-in-out}a:hover{opacity:.7}h1{line-height:1;margin:1em 0 .5em 0;text-decoration:underline;margin-top:0;font-size:var(--fs-4);text-decoration-color:var(--base-08)}footer{background:var(--base-00);color:var(--base-06);text-align:center;font-size:var(--fs-1);padding:1em 0;margin:auto 0 0}footer a{color:inherit;font-size:var(--fw-bold)}footer ul{list-style:none;display:flex;justify-content:center;margin:2em 0 0;padding:0}footer ul li{margin:0 .5em}footer ul li a{padding:.5em}</style><link href=/style.css rel=stylesheet><title>Daniel's Website</title><main><h1>Fatal Error</h1><p>Something went wrong while trying to show the error page!<h2><a href=/ >Main page</a></h2></main><footer><a href=mailto:contact@daniellaing.com>contact@daniellaing.com</a><ul><li><a href=https://github.com/Bodleum , target=_blank>GitHub</a><li><a href=https://gitlab.com/Bodleum , target=_blank>GitLab</a><li><a href=https://www.instagram.com/_thebakerdan , target=_blank>Instagram</a></ul></footer>";

/// The status of an answer that holds what it should.
pub const OK: u16 = 200;

/// The status of an answer that could not be made.
pub const INTERNAL_SERVER_ERROR: u16 = 500;

/// An answer to a request: its status and the page it holds.
#[derive(Debug)]
pub struct Reply {
    pub status: u16,
    pub body: String,
}

/// The body of the page that tells of an error: the fixed text, then the
/// error in words.
pub open spec fn error_content(message: Seq<char>) -> Seq<char> {
    ERROR_PAGE@ + "<p>Error: "@ + message + "</p>"@
}

/// The body of the page that tells of the error with the words `message`.
pub fn error_page_content(message: &str) -> (content: String)
    ensures
        content@ == error_content(message@),
{
    let mut content = ERROR_PAGE.to_owned();
    content.append("<p>Error: ");
    content.append(message);
    content.append("</p>");
    content
}

/// The answer to a request that failed: the page that tells of the error
/// where it could be rendered, under the status of a good answer; else the
/// page that needs nothing but itself, under the status of a failure.
pub fn error_reply(rendered: Option<String>) -> (reply: Reply)
    ensures
        match rendered {
            Some(page) => reply.status == OK && reply.body@ == page@,
            None => reply.status == INTERNAL_SERVER_ERROR && reply.body@ == FALLBACK_ERROR@,
        },
{
    match rendered {
        Some(page) => Reply { status: OK, body: page },
        None => Reply { status: INTERNAL_SERVER_ERROR, body: FALLBACK_ERROR.to_owned() },
    }
}

} // verus!
