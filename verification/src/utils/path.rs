//! Paths as text: components separated by `/`, the last of which names a file
//! or a directory.

use crate::utils::text::chars_of;
use vstd::prelude::*;

verus! {

/// Where `c` stands last in `s`; -1 where it does not occur.
pub open spec fn last_index_of(s: Seq<char>, c: char) -> int
    decreases s.len(),
{
    if s.len() == 0 {
        -1
    } else if s.last() == c {
        s.len() - 1
    } else {
        last_index_of(s.drop_last(), c)
    }
}

/// Where `c` stands first in `s`; the length of `s` where it does not occur.
pub open spec fn first_index_of(s: Seq<char>, c: char) -> int
    decreases s.len(),
{
    if s.len() == 0 {
        0
    } else if s[0] == c {
        0
    } else {
        1 + first_index_of(s.drop_first(), c)
    }
}

/// `path` without the separators and the `.` components that end it.
pub open spec fn trim_tail(path: Seq<char>) -> Seq<char>
    decreases path.len(),
{
    if path.len() > 0 && path.last() == '/' {
        trim_tail(path.drop_last())
    } else if path.len() >= 2 && path.last() == '.' && path[path.len() - 2] == '/' {
        trim_tail(path.drop_last())
    } else {
        path
    }
}

/// Where the last component of `path` begins.
pub open spec fn name_start(path: Seq<char>) -> int {
    last_index_of(trim_tail(path), '/') + 1
}

/// Where the last component of `path` ends.
pub open spec fn name_end(path: Seq<char>) -> int {
    trim_tail(path).len() as int
}

/// The last component of `path`, whatever it is.
pub open spec fn last_component(path: Seq<char>) -> Seq<char> {
    path.subrange(name_start(path), name_end(path))
}

/// Whether `path` ends in a component that names a file or a directory:
/// there is a last component, and it is neither `.` nor `..`.
pub open spec fn has_file_name(path: Seq<char>) -> bool {
    let name = last_component(path);
    name.len() > 0 && name != seq!['.'] && name != seq!['.', '.']
}

/// The name that `path` ends in.
pub open spec fn file_name_of(path: Seq<char>) -> Option<Seq<char>> {
    if has_file_name(path) {
        Some(last_component(path))
    } else {
        None
    }
}

/// The part of `name` before its first `.`; all of `name` where it has none.
pub open spec fn root_of_name(name: Seq<char>) -> Seq<char> {
    name.take(first_index_of(name, '.'))
}

/// The name that `path` ends in, up to its first `.`.
pub open spec fn file_root_of(path: Seq<char>) -> Option<Seq<char>> {
    if has_file_name(path) {
        Some(root_of_name(last_component(path)))
    } else {
        None
    }
}

/// Whether the name that `path` ends in begins with a `.`.
pub open spec fn is_hidden_path(path: Seq<char>) -> Option<bool> {
    if has_file_name(path) {
        Some(last_component(path)[0] == '.')
    } else {
        None
    }
}

/// Whether `name` has an extension: a `.` that is not its first character.
pub open spec fn name_has_extension(name: Seq<char>) -> bool {
    last_index_of(name, '.') > 0
}

/// The extension of the name that `path` ends in: what follows its last `.`,
/// unless that `.` begins the name.
pub open spec fn extension_of(path: Seq<char>) -> Option<Seq<char>> {
    let name = last_component(path);
    if has_file_name(path) && name_has_extension(name) {
        Some(name.skip(last_index_of(name, '.') + 1))
    } else {
        None
    }
}

/// Where the name that `path` ends in is cut to take its extension off.
pub open spec fn stem_end(path: Seq<char>) -> int {
    let name = last_component(path);
    if name_has_extension(name) {
        name_start(path) + last_index_of(name, '.')
    } else {
        name_end(path)
    }
}

/// `path` with the extension of its name replaced by `extension`, or taken
/// off where `extension` is empty; `path` itself where it ends in no name.
pub open spec fn with_extension_of(path: Seq<char>, extension: Seq<char>) -> Seq<char> {
    if !has_file_name(path) {
        path
    } else if extension.len() == 0 {
        path.take(stem_end(path))
    } else {
        path.take(stem_end(path)) + seq!['.'] + extension
    }
}

/// `name` under the directory `base`.
pub open spec fn join_of(base: Seq<char>, name: Seq<char>) -> Seq<char> {
    if name.len() > 0 && name[0] == '/' {
        name
    } else if base.len() == 0 || base.last() == '/' {
        base + name
    } else {
        base + seq!['/'] + name
    }
}

/// `c` stands last at `i` in `s` where it stands there and nowhere after.
pub proof fn lemma_last_index_of(s: Seq<char>, c: char, i: int)
    requires
        -1 <= i < s.len(),
        i >= 0 ==> s[i] == c,
        forall|j: int| i < j < s.len() ==> s[j] != c,
    ensures
        last_index_of(s, c) == i,
    decreases s.len(),
{
    if s.len() > 0 && s.last() != c {
        lemma_last_index_of(s.drop_last(), c, i);
    }
}

/// `c` stands first at `i` in `s` where it stands there and nowhere before.
pub proof fn lemma_first_index_of(s: Seq<char>, c: char, i: int)
    requires
        0 <= i <= s.len(),
        i < s.len() ==> s[i] == c,
        forall|j: int| 0 <= j < i ==> s[j] != c,
    ensures
        first_index_of(s, c) == i,
    decreases s.len(),
{
    if s.len() > 0 && s[0] != c {
        lemma_first_index_of(s.drop_first(), c, i - 1);
    }
}

/// Trimming a path leaves one of its prefixes, which trimming does not
/// shorten further.
pub proof fn lemma_trim_tail(path: Seq<char>)
    ensures
        trim_tail(path).len() <= path.len(),
        trim_tail(path) == path.take(trim_tail(path).len() as int),
        trim_tail(trim_tail(path)) == trim_tail(path),
    decreases path.len(),
{
    if path.len() > 0 && path.last() == '/' {
        lemma_trim_tail(path.drop_last());
        assert(trim_tail(path) =~= path.take(trim_tail(path).len() as int));
    } else if path.len() >= 2 && path.last() == '.' && path[path.len() - 2] == '/' {
        lemma_trim_tail(path.drop_last());
        assert(trim_tail(path) =~= path.take(trim_tail(path).len() as int));
    } else {
        assert(path =~= path.take(path.len() as int));
    }
}

/// The bounds of the last component lie within the path, in order.
pub proof fn lemma_name_bounds(path: Seq<char>)
    ensures
        0 <= name_start(path) <= name_end(path) <= path.len(),
        forall|j: int| name_start(path) <= j < name_end(path) ==> path[j] != '/',
        name_start(path) > 0 ==> path[name_start(path) - 1] == '/',
{
    lemma_trim_tail(path);
    lemma_last_index_bounds(trim_tail(path), '/');
    assert forall|j: int| name_start(path) <= j < name_end(path) implies path[j] != '/' by {
        assert(trim_tail(path)[j] == path[j]);
    }
    if name_start(path) > 0 {
        assert(trim_tail(path)[name_start(path) - 1] == path[name_start(path) - 1]);
    }
}

/// Where a character is said to stand last, it stands, and nowhere after.
pub proof fn lemma_last_index_bounds(s: Seq<char>, c: char)
    ensures
        -1 <= last_index_of(s, c) < s.len(),
        last_index_of(s, c) >= 0 ==> s[last_index_of(s, c)] == c,
        forall|j: int| last_index_of(s, c) < j < s.len() ==> s[j] != c,
    decreases s.len(),
{
    if s.len() > 0 && s.last() != c {
        lemma_last_index_bounds(s.drop_last(), c);
        assert forall|j: int| last_index_of(s, c) < j < s.len() implies s[j] != c by {
            if j < s.len() - 1 {
                assert(s.drop_last()[j] == s[j]);
            }
        }
    }
}

/// The name that a path ends in is a path of its own that ends in it.
pub proof fn lemma_file_name_of_name(path: Seq<char>)
    requires
        has_file_name(path),
    ensures
        has_file_name(last_component(path)),
        last_component(last_component(path)) == last_component(path),
{
    let name = last_component(path);
    lemma_name_bounds(path);
    assert forall|j: int| 0 <= j < name.len() implies name[j] != '/' by {
        assert(name[j] == path[name_start(path) + j]);
    }
    lemma_plain_name(name);
}

/// A text without separators is its own last component.
pub proof fn lemma_plain_name(name: Seq<char>)
    requires
        forall|j: int| 0 <= j < name.len() ==> name[j] != '/',
    ensures
        trim_tail(name) == name,
        name_start(name) == 0,
        last_component(name) == name,
{
    lemma_last_index_of(name, '/', -1);
    assert(name.subrange(0, name.len() as int) =~= name);
}

/// The bounds of the last component of `path`: where it begins and where it
/// ends.
pub(crate) fn name_bounds(path: &Vec<char>) -> (bounds: (usize, usize))
    ensures
        bounds.0 == name_start(path@),
        bounds.1 == name_end(path@),
        bounds.0 <= bounds.1 <= path@.len(),
{
    let mut end: usize = path.len();
    assert(path@.take(end as int) =~= path@);
    while end > 0 && (path[end - 1] == '/' || (end >= 2 && path[end - 1] == '.' && path[end - 2]
        == '/'))
        invariant
            end <= path@.len(),
            trim_tail(path@) == trim_tail(path@.take(end as int)),
        decreases end,
    {
        assert(path@.take(end as int).drop_last() =~= path@.take(end - 1));
        end = end - 1;
    }
    let mut start: usize = end;
    while start > 0 && path[start - 1] != '/'
        invariant
            start <= end <= path@.len(),
            forall|j: int| start <= j < end ==> path@[j] != '/',
        decreases start,
    {
        start = start - 1;
    }
    proof {
        lemma_last_index_of(path@.take(end as int), '/', start - 1);
    }
    (start, end)
}

/// The bounds of the name that `path` ends in, where it ends in one.
pub(crate) fn file_name_bounds(path: &Vec<char>) -> (bounds: Option<(usize, usize)>)
    ensures
        bounds is Some <==> has_file_name(path@),
        bounds matches Some(b) ==> b.0 == name_start(path@) && b.1 == name_end(path@) && b.0 < b.1
            && b.1 <= path@.len(),
{
    let (start, end) = name_bounds(path);
    let ghost name = last_component(path@);
    if start == end {
        return None;
    }
    if end - start == 1 && path[start] == '.' {
        assert(name =~= seq!['.']);
        return None;
    }
    if end - start == 2 && path[start] == '.' && path[start + 1] == '.' {
        assert(name =~= seq!['.', '.']);
        return None;
    }
    proof {
        if name == seq!['.'] {
            assert(name.len() == 1 && name[0] == '.');
        }
        if name == seq!['.', '.'] {
            assert(name.len() == 2 && name[0] == '.' && name[1] == '.');
        }
    }
    Some((start, end))
}

/// Where `c` stands first in `chars` from `from` up to `to`; `to` where it
/// does not occur there.
pub(crate) fn find_first(chars: &Vec<char>, from: usize, to: usize, c: char) -> (at: usize)
    requires
        from <= to <= chars@.len(),
    ensures
        at == from + first_index_of(chars@.subrange(from as int, to as int), c),
        from <= at <= to,
{
    let mut at: usize = from;
    while at < to && chars[at] != c
        invariant
            from <= at <= to <= chars@.len(),
            forall|j: int| from <= j < at ==> chars@[j] != c,
        decreases to - at,
    {
        at = at + 1;
    }
    proof {
        lemma_first_index_of(chars@.subrange(from as int, to as int), c, at - from);
    }
    at
}

/// Where `c` stands last in `chars` from `from` up to `to`, where it occurs
/// there.
pub(crate) fn find_last(chars: &Vec<char>, from: usize, to: usize, c: char) -> (at: Option<usize>)
    requires
        from <= to <= chars@.len(),
    ensures
        at is Some <==> last_index_of(chars@.subrange(from as int, to as int), c) >= 0,
        at matches Some(i) ==> i == from + last_index_of(
            chars@.subrange(from as int, to as int),
            c,
        ) && from <= i < to,
{
    let mut at: usize = to;
    while at > from && chars[at - 1] != c
        invariant
            from <= at <= to <= chars@.len(),
            forall|j: int| at <= j < to ==> chars@[j] != c,
        decreases at,
    {
        at = at - 1;
    }
    proof {
        lemma_last_index_of(chars@.subrange(from as int, to as int), c, at - from - 1);
    }
    if at > from {
        Some(at - 1)
    } else {
        None
    }
}

/// The name that `path` ends in: its last component, unless that is `.` or
/// `..` or the path has no component at all.
pub fn file_name(path: &str) -> (name: Option<&str>)
    ensures
        name is Some <==> file_name_of(path@) is Some,
        name matches Some(n) ==> file_name_of(path@) == Some(n@),
{
    let chars = chars_of(path);
    match file_name_bounds(&chars) {
        Some((start, end)) => Some(path.substring_char(start, end)),
        None => None,
    }
}

/// The extension of the name that `path` ends in.
pub fn extension(path: &str) -> (ext: Option<&str>)
    ensures
        ext is Some <==> extension_of(path@) is Some,
        ext matches Some(e) ==> extension_of(path@) == Some(e@),
{
    let chars = chars_of(path);
    match file_name_bounds(&chars) {
        Some((start, end)) => {
            match find_last(&chars, start, end, '.') {
                Some(dot) => {
                    if dot > start {
                        let ext = path.substring_char(dot + 1, end);
                        assert(ext@ =~= last_component(path@).skip(dot - start + 1));
                        Some(ext)
                    } else {
                        None
                    }
                },
                None => None,
            }
        },
        None => None,
    }
}

/// `path` with the extension of its name replaced by `ext`, or taken off
/// where `ext` is empty; `path` itself where it ends in no name.
pub fn with_extension(path: &str, ext: &str) -> (changed: String)
    ensures
        changed@ == with_extension_of(path@, ext@),
{
    let chars = chars_of(path);
    match file_name_bounds(&chars) {
        Some((start, end)) => {
            let cut: usize = match find_last(&chars, start, end, '.') {
                Some(dot) => if dot > start {
                    dot
                } else {
                    end
                },
                None => end,
            };
            let mut changed = path.substring_char(0, cut).to_owned();
            assert(changed@ =~= path@.take(cut as int));
            if ext.unicode_len() > 0 {
                proof {
                    reveal_strlit(".");
                }
                changed.append(".");
                changed.append(ext);
                assert(changed@ =~= path@.take(cut as int) + seq!['.'] + ext@);
            }
            changed
        },
        None => path.to_owned(),
    }
}

/// `name` under the directory `base`: the two joined by a separator, unless
/// `base` is empty or ends in one; `name` alone where it begins with a
/// separator.
pub fn join(base: &str, name: &str) -> (joined: String)
    ensures
        joined@ == join_of(base@, name@),
{
    let name_len = name.unicode_len();
    if name_len > 0 && name.get_char(0) == '/' {
        return name.to_owned();
    }
    let base_len = base.unicode_len();
    let mut joined = base.to_owned();
    if base_len > 0 && base.get_char(base_len - 1) != '/' {
        proof {
            reveal_strlit("/");
        }
        joined.append("/");
        assert(joined@ =~= base@ + seq!['/']);
    }
    joined.append(name);
    joined
}

/// `path` without the separators that end it.
pub open spec fn trim_separators(path: Seq<char>) -> Seq<char>
    decreases path.len(),
{
    if path.len() > 0 && path.last() == '/' {
        trim_separators(path.drop_last())
    } else {
        path
    }
}

/// `path` without the separators that begin it.
pub open spec fn skip_separators(path: Seq<char>) -> Seq<char>
    decreases path.len(),
{
    if path.len() > 0 && path[0] == '/' {
        skip_separators(path.drop_first())
    } else {
        path
    }
}

/// `path` as seen from the directory `base`: what follows `base` and the
/// separators after it, where `path` lies in `base` or is `base`. An empty
/// `base` leaves every path as it is.
pub open spec fn strip_prefix_of(path: Seq<char>, base: Seq<char>) -> Option<Seq<char>> {
    let b = trim_separators(base);
    if base.len() == 0 {
        Some(path)
    } else if path.len() > b.len() && path.take(b.len() as int) == b && path[b.len() as int]
        == '/' {
        Some(skip_separators(path.skip(b.len() as int)))
    } else if b.len() > 0 && path == b {
        Some(Seq::empty())
    } else {
        None
    }
}

/// Trimming separators leaves the prefix that ends before the last run of
/// them.
pub proof fn lemma_trim_separators(path: Seq<char>, end: int)
    requires
        0 <= end <= path.len(),
        end > 0 ==> path[end - 1] != '/',
        forall|j: int| end <= j < path.len() ==> path[j] == '/',
    ensures
        trim_separators(path) == path.take(end),
    decreases path.len(),
{
    if end < path.len() {
        lemma_trim_separators(path.drop_last(), end);
        assert(path.drop_last().take(end) =~= path.take(end));
    } else {
        assert(path.take(end) =~= path);
    }
}

/// Skipping separators leaves the suffix that begins behind the first run of
/// them.
pub proof fn lemma_skip_separators(path: Seq<char>, start: int)
    requires
        0 <= start <= path.len(),
        start < path.len() ==> path[start] != '/',
        forall|j: int| 0 <= j < start ==> path[j] == '/',
    ensures
        skip_separators(path) == path.skip(start),
    decreases path.len(),
{
    if start > 0 {
        lemma_skip_separators(path.drop_first(), start - 1);
        assert(path.drop_first().skip(start - 1) =~= path.skip(start));
    } else {
        assert(path.skip(0) =~= path);
    }
}

/// Where the last run of separators of `path` begins, looking no further
/// than `to`.
pub(crate) fn separators_start(path: &Vec<char>, to: usize) -> (end: usize)
    requires
        to <= path@.len(),
    ensures
        end <= to,
        end > 0 ==> path@[end - 1] != '/',
        forall|j: int| end <= j < to ==> path@[j] == '/',
{
    let mut end: usize = to;
    while end > 0 && path[end - 1] == '/'
        invariant
            end <= to <= path@.len(),
            forall|j: int| end <= j < to ==> path@[j] == '/',
        decreases end,
    {
        end = end - 1;
    }
    end
}

/// Where the run of separators ends that begins at `from` in `path`.
pub(crate) fn separators_end(path: &Vec<char>, from: usize) -> (start: usize)
    requires
        from <= path@.len(),
    ensures
        from <= start <= path@.len(),
        start < path@.len() ==> path@[start as int] != '/',
        forall|j: int| from <= j < start ==> path@[j] == '/',
{
    let mut start: usize = from;
    while start < path.len() && path[start] == '/'
        invariant
            from <= start <= path@.len(),
            forall|j: int| from <= j < start ==> path@[j] == '/',
        decreases path@.len() - start,
    {
        start = start + 1;
    }
    start
}

/// Whether `path` begins with the first `len` characters of `base`.
pub(crate) fn starts_with(path: &Vec<char>, base: &Vec<char>, len: usize) -> (starts: bool)
    requires
        len <= base@.len(),
    ensures
        starts == (path@.len() >= len && path@.take(len as int) == base@.take(len as int)),
{
    if path.len() < len {
        return false;
    }
    let mut at: usize = 0;
    while at < len
        invariant
            at <= len <= base@.len(),
            len <= path@.len(),
            forall|j: int| 0 <= j < at ==> path@[j] == base@[j],
        decreases len - at,
    {
        if path[at] != base[at] {
            assert(path@.take(len as int)[at as int] != base@.take(len as int)[at as int]);
            return false;
        }
        at = at + 1;
    }
    assert(path@.take(len as int) =~= base@.take(len as int));
    true
}

/// `path` as seen from the directory `base`; `None` where `path` does not
/// lie in `base`.
pub fn strip_prefix<'a>(path: &'a str, base: &str) -> (rest: Option<&'a str>)
    ensures
        rest is Some <==> strip_prefix_of(path@, base@) is Some,
        rest matches Some(r) ==> strip_prefix_of(path@, base@) == Some(r@),
{
    let chars = chars_of(path);
    let base_chars = chars_of(base);
    if base_chars.len() == 0 {
        return Some(path);
    }
    let len = separators_start(&base_chars, base_chars.len());
    proof {
        lemma_trim_separators(base@, len as int);
    }
    if !starts_with(&chars, &base_chars, len) {
        proof {
            if path@ == base@.take(len as int) {
                assert(path@.take(len as int) =~= path@);
            }
        }
        return None;
    }
    if chars.len() > len && chars[len] == '/' {
        let start = separators_end(&chars, len);
        proof {
            lemma_skip_separators(path@.skip(len as int), start - len);
        }
        let rest = path.substring_char(start, chars.len());
        assert(rest@ =~= path@.skip(len as int).skip(start - len));
        Some(rest)
    } else if len > 0 && chars.len() == len {
        assert(path@.take(len as int) =~= path@);
        Some(path.substring_char(0, 0))
    } else {
        proof {
            if path@ == base@.take(len as int) {
                assert(path@.len() == len);
            }
        }
        None
    }
}

/// What a path tells about the entry it leads to.
pub trait PathExt {
    /// The path as text.
    spec fn path_text(&self) -> Seq<char>;

    /// The name that the path ends in, up to its first `.`; `None` where the
    /// path ends in no name.
    fn file_root(&self) -> (root: Option<&str>)
        ensures
            root is Some <==> file_root_of(self.path_text()) is Some,
            root matches Some(r) ==> file_root_of(self.path_text()) == Some(r@),
    ;

    /// Whether the name that the path ends in begins with a `.`; `None` where
    /// the path ends in no name.
    fn is_hidden(&self) -> (hidden: Option<bool>)
        ensures
            hidden == is_hidden_path(self.path_text()),
    ;
}

impl PathExt for str {
    open spec fn path_text(&self) -> Seq<char> {
        self@
    }

    fn file_root(&self) -> (root: Option<&str>) {
        let chars = chars_of(self);
        match file_name_bounds(&chars) {
            Some((start, end)) => {
                let dot = find_first(&chars, start, end, '.');
                let root = self.substring_char(start, dot);
                assert(root@ =~= root_of_name(last_component(self@)));
                Some(root)
            },
            None => None,
        }
    }

    fn is_hidden(&self) -> (hidden: Option<bool>) {
        let chars = chars_of(self);
        match file_name_bounds(&chars) {
            Some((start, end)) => Some(chars[start] == '.'),
            None => None,
        }
    }
}

} // verus!
