//! Paths as text, with `/` between the names.
//!
//! A path is a sequence of characters. Names are separated by `/`; a path that
//! begins with `/` is absolute. A name `.` that stands behind a separator says
//! nothing and is passed over where a parent is taken; the name `..` is a name
//! like any other. Nothing here looks at what is on disk.

use vstd::prelude::*;
use vstd::string::*;

verus! {

/// The separator between the names of a path.
pub open spec fn is_separator(c: char) -> bool {
    c == '/'
}

/// `rel` adjoined to `base`: an absolute `rel` stands for itself, and a
/// separator is put between the two unless `base` is empty or ends in one.
pub open spec fn spec_join(base: Seq<char>, rel: Seq<char>) -> Seq<char> {
    if rel.len() > 0 && is_separator(rel[0]) {
        rel
    } else if base.len() == 0 || is_separator(base.last()) {
        base + rel
    } else {
        base + seq!['/'] + rel
    }
}

/// Whether the last character of `path` says nothing: it is a separator, or it
/// is the name `.` behind a separator.
pub open spec fn spec_ends_idle(path: Seq<char>) -> bool {
    path.len() > 0 && (is_separator(path.last()) || (path.len() >= 2 && path.last() == '.'
        && is_separator(path[path.len() - 2])))
}

/// The length of `path` without the separators and the names `.` at its end.
pub open spec fn spec_trimmed_len(path: Seq<char>) -> nat
    decreases path.len(),
{
    if spec_ends_idle(path) {
        spec_trimmed_len(path.drop_last())
    } else {
        path.len()
    }
}

/// Where the last name of `path` begins: behind its last separator, or at the
/// start where it has none.
pub open spec fn spec_name_start(path: Seq<char>) -> nat
    decreases path.len(),
{
    if path.len() > 0 && !is_separator(path.last()) {
        spec_name_start(path.drop_last())
    } else {
        path.len()
    }
}

/// The path without its last name.
///
/// Separators and names `.` at the end of the path, and those in front of its
/// last name, do not count. A path without any name (the empty path, or
/// nothing but separators and such names) has no parent. The parent of a
/// single name is the empty path, or `/` where the name stood behind a leading
/// separator.
pub open spec fn spec_parent(path: Seq<char>) -> Option<Seq<char>> {
    let end = spec_trimmed_len(path);
    let start = spec_name_start(path.take(end as int));
    let stem = spec_trimmed_len(path.take(start as int));
    if end == 0 {
        None
    } else if stem > 0 {
        Some(path.take(stem as int))
    } else if start > 0 {
        Some(seq!['/'])
    } else {
        Some(Seq::empty())
    }
}

/// The directory that holds `path`: its parent, or the path itself where it has
/// none.
pub open spec fn spec_containing_dir(path: Seq<char>) -> Seq<char> {
    match spec_parent(path) {
        Some(dir) => dir,
        None => path,
    }
}

/// Whether `name` is one name: not empty, and without a separator in it.
pub open spec fn spec_is_name(name: Seq<char>) -> bool {
    name.len() > 0 && forall|i: int| 0 <= i < name.len() ==> !is_separator(#[trigger] name[i])
}

/// The last name of `dir + "/" + name` begins behind the separator.
proof fn lemma_name_start_of_joined(dir: Seq<char>, name: Seq<char>)
    requires
        forall|i: int| 0 <= i < name.len() ==> !is_separator(#[trigger] name[i]),
    ensures
        spec_name_start(dir + seq!['/'] + name) == dir.len() + 1,
    decreases name.len(),
{
    let whole = dir + seq!['/'] + name;
    if name.len() == 0 {
        assert(whole.last() == '/');
    } else {
        assert(whole.last() == name.last());
        assert(whole.drop_last() =~= dir + seq!['/'] + name.drop_last());
        assert forall|i: int| 0 <= i < name.drop_last().len() implies !is_separator(
            #[trigger] name.drop_last()[i],
        ) by {
            assert(name.drop_last()[i] == name[i]);
        }
        lemma_name_start_of_joined(dir, name.drop_last());
    }
}

/// A name joined to a directory has that directory as its parent: `dir` is not
/// empty and has nothing at its end that says nothing, and `name` is one name
/// other than `.`.
pub proof fn lemma_parent_of_join(dir: Seq<char>, name: Seq<char>)
    requires
        dir.len() > 0,
        !spec_ends_idle(dir),
        spec_is_name(name),
        name != seq!['.'],
    ensures
        spec_parent(spec_join(dir, name)) == Some(dir),
        spec_containing_dir(spec_join(dir, name)) == dir,
{
    let whole = dir + seq!['/'] + name;
    assert(spec_join(dir, name) == whole);
    assert(whole.last() == name.last());
    assert(!spec_ends_idle(whole)) by {
        if name.len() == 1 {
            assert(name =~= seq![name[0]]);
        } else {
            assert(whole[whole.len() - 2] == name[name.len() - 2]);
        }
    }
    assert(spec_trimmed_len(whole) == whole.len());
    assert(whole.take(whole.len() as int) =~= whole);
    lemma_name_start_of_joined(dir, name);
    let front = whole.take(dir.len() as int + 1);
    assert(front =~= dir + seq!['/']);
    assert(front.last() == '/');
    assert(front.drop_last() =~= dir);
    assert(spec_trimmed_len(front) == spec_trimmed_len(dir));
    assert(spec_trimmed_len(dir) == dir.len());
    assert(whole.take(dir.len() as int) =~= dir);
}

/// Adjoins `rel` to `base`.
pub fn join(base: &str, rel: &str) -> (joined: String)
    ensures
        joined@ == spec_join(base@, rel@),
{
    let rel_len: usize = rel.unicode_len();
    if rel_len > 0 && rel.get_char(0) == '/' {
        return String::from_str(rel);
    }
    let base_len: usize = base.unicode_len();
    let mut joined = String::from_str(base);
    if base_len > 0 && base.get_char(base_len - 1) != '/' {
        proof {
            reveal_strlit("/");
        }
        joined.append("/");
        assert(joined@ =~= base@ + seq!['/']);
    }
    joined.append(rel);
    joined
}

/// Whether the last of the first `end` characters of `path` says nothing.
fn ends_idle(path: &str, end: usize) -> (idle: bool)
    requires
        end <= path@.len(),
    ensures
        idle == spec_ends_idle(path@.take(end as int)),
{
    if end == 0 {
        return false;
    }
    let last = path.get_char(end - 1);
    if last == '/' {
        return true;
    }
    if end >= 2 && last == '.' {
        return path.get_char(end - 2) == '/';
    }
    false
}

/// The length of the first `end` characters of `path` without the separators
/// and the names `.` at their end.
fn trimmed_len(path: &str, end: usize) -> (len: usize)
    requires
        end <= path@.len(),
    ensures
        len == spec_trimmed_len(path@.take(end as int)),
        len <= end,
{
    let mut len: usize = end;
    while ends_idle(path, len)
        invariant
            len <= end <= path@.len(),
            spec_trimmed_len(path@.take(len as int)) == spec_trimmed_len(path@.take(end as int)),
        decreases len,
    {
        assert(path@.take(len as int).drop_last() =~= path@.take(len - 1));
        len = len - 1;
    }
    len
}

/// Where the last name among the first `end` characters of `path` begins.
fn name_start(path: &str, end: usize) -> (start: usize)
    requires
        end <= path@.len(),
    ensures
        start == spec_name_start(path@.take(end as int)),
        start <= end,
{
    let mut start: usize = end;
    while start > 0 && path.get_char(start - 1) != '/'
        invariant
            start <= end <= path@.len(),
            spec_name_start(path@.take(start as int)) == spec_name_start(path@.take(end as int)),
        decreases start,
    {
        assert(path@.take(start as int).drop_last() =~= path@.take(start - 1));
        start = start - 1;
    }
    start
}

/// The path without its last name, if it has a name.
pub fn parent(path: &str) -> (dir: Option<String>)
    ensures
        dir is Some <==> spec_parent(path@) is Some,
        dir matches Some(d) ==> spec_parent(path@) == Some(d@),
{
    let total: usize = path.unicode_len();
    assert(path@.take(total as int) =~= path@);
    let end: usize = trimmed_len(path, total);
    if end == 0 {
        return None;
    }
    let start: usize = name_start(path, end);
    assert(path@.take(end as int).take(start as int) =~= path@.take(start as int));
    let stem: usize = trimmed_len(path, start);
    if stem > 0 {
        let dir = String::from_str(path.substring_char(0, stem));
        assert(dir@ =~= path@.take(stem as int));
        Some(dir)
    } else if start > 0 {
        proof {
            reveal_strlit("/");
        }
        let dir = String::from_str("/");
        assert(dir@ =~= seq!['/']);
        Some(dir)
    } else {
        Some(String::new())
    }
}

/// The directory that holds `path`.
pub fn containing_dir(path: &str) -> (dir: String)
    ensures
        dir@ == spec_containing_dir(path@),
{
    match parent(path) {
        Some(dir) => dir,
        None => String::from_str(path),
    }
}

} // verus!
