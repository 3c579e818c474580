//! Paths as text: components separated by `/`.
//!
//! The browser keeps absolute paths in normal form: `/` alone, or a `/` before
//! each of one or more components, with no `/` at the end. On such paths
//! [`join`], [`parent`] and [`file_name`] fit together, see
//! [`lemma_join_then_split`]. Every function here is total, so a path in
//! another form is split at its last `/` all the same.

use vstd::prelude::*;
use vstd::string::*;

verus! {

/// The separator between components.
pub const SEPARATOR: char = '/';

/// The views of an optional text.
pub open spec fn text_of(text: Option<String>) -> Option<Seq<char>> {
    match text {
        Some(t) => Some(t@),
        None => None,
    }
}

/// The index of the last separator in `path`, or -1 where it has none.
pub open spec fn last_separator(path: Seq<char>) -> int
    decreases path.len(),
{
    if path.len() == 0 {
        -1
    } else if path.last() == SEPARATOR {
        path.len() - 1
    } else {
        last_separator(path.drop_last())
    }
}

/// Whether `name` can be one component: not empty and without a separator.
pub open spec fn is_component(name: Seq<char>) -> bool {
    name.len() > 0 && !name.contains(SEPARATOR)
}

/// Whether `path` is absolute and in normal form: it starts with a separator,
/// no two separators are adjacent, and only the root ends with one.
pub open spec fn is_absolute(path: Seq<char>) -> bool {
    &&& path.len() > 0
    &&& path[0] == SEPARATOR
    &&& forall|i: int|
        0 <= i < path.len() - 1 && path[i] == SEPARATOR ==> #[trigger] path[i + 1] != SEPARATOR
    &&& path.len() > 1 ==> path.last() != SEPARATOR
}

/// The root directory.
pub open spec fn root() -> Seq<char> {
    seq![SEPARATOR]
}

/// The directory that holds `path`: what stands before its last separator, the
/// root where that separator is the first character. The root itself and a
/// path without a separator have none.
pub open spec fn parent_of(path: Seq<char>) -> Option<Seq<char>> {
    let cut = last_separator(path);
    if cut < 0 || path.len() == 1 {
        None
    } else if cut == 0 {
        Some(root())
    } else {
        Some(path.subrange(0, cut))
    }
}

/// The last component of `path`: what stands behind its last separator.
pub open spec fn file_name_of(path: Seq<char>) -> Seq<char> {
    path.subrange(last_separator(path) + 1, path.len() as int)
}

/// `path` up to and including its last separator.
pub open spec fn directory_prefix(path: Seq<char>) -> Seq<char> {
    path.subrange(0, last_separator(path) + 1)
}

/// `path` with its last component replaced by `name`.
pub open spec fn with_file_name_of(path: Seq<char>, name: Seq<char>) -> Seq<char> {
    directory_prefix(path) + name
}

/// `name` below `dir`. An absolute `name` stands for itself, as does any name
/// below the empty path; otherwise one separator stands between the two.
pub open spec fn joined(dir: Seq<char>, name: Seq<char>) -> Seq<char> {
    if dir.len() == 0 || (name.len() > 0 && name[0] == SEPARATOR) {
        name
    } else if dir.last() == SEPARATOR {
        dir + name
    } else {
        dir + seq![SEPARATOR] + name
    }
}

/// Where the last separator is: it is a separator, and none follows it.
pub proof fn lemma_last_separator(path: Seq<char>)
    ensures
        -1 <= last_separator(path) < path.len(),
        last_separator(path) >= 0 ==> path[last_separator(path)] == SEPARATOR,
        forall|j: int| last_separator(path) < j < path.len() ==> path[j] != SEPARATOR,
    decreases path.len(),
{
    if path.len() > 0 && path.last() != SEPARATOR {
        let shorter = path.drop_last();
        lemma_last_separator(shorter);
        assert forall|j: int| last_separator(path) < j < path.len() implies path[j]
            != SEPARATOR by {
            if j < shorter.len() {
                assert(path[j] == shorter[j]);
            }
        }
    }
}

/// A separator that none follows is the last one.
pub proof fn lemma_last_separator_is(path: Seq<char>, cut: int)
    requires
        -1 <= cut < path.len(),
        cut >= 0 ==> path[cut] == SEPARATOR,
        forall|j: int| cut < j < path.len() ==> path[j] != SEPARATOR,
    ensures
        last_separator(path) == cut,
{
    lemma_last_separator(path);
}

/// Finds the last separator of `path`.
fn find_last_separator(path: &str) -> (found: Option<usize>)
    ensures
        match found {
            Some(cut) => cut == last_separator(path@),
            None => last_separator(path@) == -1,
        },
{
    let len = path.unicode_len();
    let mut i: usize = len;
    while i > 0
        invariant
            len == path@.len(),
            i <= len,
            forall|j: int| i <= j < len ==> path@[j] != SEPARATOR,
        decreases i,
    {
        i -= 1;
        if path.get_char(i) == SEPARATOR {
            proof {
                lemma_last_separator_is(path@, i as int);
            }
            return Some(i);
        }
    }
    proof {
        lemma_last_separator_is(path@, -1);
    }
    None
}

/// Whether `name` can be one component of a path.
pub fn check_component(name: &str) -> (ok: bool)
    ensures
        ok == is_component(name@),
{
    let len = name.unicode_len();
    if len == 0 {
        return false;
    }
    let mut i: usize = 0;
    while i < len
        invariant
            len == name@.len(),
            i <= len,
            forall|j: int| 0 <= j < i ==> name@[j] != SEPARATOR,
        decreases len - i,
    {
        if name.get_char(i) == SEPARATOR {
            assert(name@.contains(name@[i as int]));
            return false;
        }
        i += 1;
    }
    true
}

/// Whether `path` is absolute and in normal form.
pub fn check_absolute(path: &str) -> (ok: bool)
    ensures
        ok == is_absolute(path@),
{
    let len = path.unicode_len();
    if len == 0 || path.get_char(0) != SEPARATOR {
        return false;
    }
    let mut i: usize = 1;
    let mut after_separator = true;
    while i < len
        invariant
            len == path@.len(),
            1 <= i <= len,
            after_separator == (path@[i - 1] == SEPARATOR),
            forall|j: int|
                0 <= j < i - 1 && path@[j] == SEPARATOR ==> #[trigger] path@[j + 1] != SEPARATOR,
        decreases len - i,
    {
        let here = path.get_char(i) == SEPARATOR;
        if here && after_separator {
            assert(path@[(i - 1) + 1] == SEPARATOR);
            return false;
        }
        after_separator = here;
        i += 1;
    }
    len == 1 || !after_separator
}

/// The directory that holds `path`, if it has one.
pub fn parent(path: &str) -> (dir: Option<String>)
    ensures
        text_of(dir) == parent_of(path@),
{
    let len = path.unicode_len();
    proof {
        lemma_last_separator(path@);
    }
    match find_last_separator(path) {
        None => None,
        Some(cut) => {
            if len == 1 {
                None
            } else if cut == 0 {
                Some(String::from_str(path.substring_char(0, 1)))
            } else {
                Some(String::from_str(path.substring_char(0, cut)))
            }
        },
    }
}

/// The last component of `path`.
pub fn file_name(path: &str) -> (name: String)
    ensures
        name@ == file_name_of(path@),
{
    let len = path.unicode_len();
    proof {
        lemma_last_separator(path@);
    }
    match find_last_separator(path) {
        None => String::from_str(path.substring_char(0, len)),
        Some(cut) => String::from_str(path.substring_char(cut + 1, len)),
    }
}

/// `path` with its last component replaced by `name`: the path of a file of
/// that name in the same directory.
pub fn with_file_name(path: &str, name: &str) -> (out: String)
    ensures
        out@ == with_file_name_of(path@, name@),
{
    let len = path.unicode_len();
    proof {
        lemma_last_separator(path@);
    }
    let mut out = match find_last_separator(path) {
        None => String::new(),
        Some(cut) => String::from_str(path.substring_char(0, cut + 1)),
    };
    out.append(name);
    out
}

/// The path of `name` below `dir`.
pub fn join(dir: &str, name: &str) -> (out: String)
    ensures
        out@ == joined(dir@, name@),
{
    let dir_len = dir.unicode_len();
    let name_len = name.unicode_len();
    if dir_len == 0 || (name_len > 0 && name.get_char(0) == SEPARATOR) {
        return String::from_str(name);
    }
    let mut out = String::from_str(dir);
    if dir.get_char(dir_len - 1) != SEPARATOR {
        proof {
            reveal_strlit("/");
        }
        out.append("/");
        assert(out@ =~= dir@ + seq![SEPARATOR]);
    }
    out.append(name);
    out
}

/// Joining and splitting fit together: below an absolute directory, a
/// component gives an absolute path whose parent is that directory and whose
/// last component is that component.
pub proof fn lemma_join_then_split(dir: Seq<char>, name: Seq<char>)
    requires
        is_absolute(dir),
        is_component(name),
    ensures
        is_absolute(joined(dir, name)),
        parent_of(joined(dir, name)) == Some(dir),
        file_name_of(joined(dir, name)) == name,
{
    let path = joined(dir, name);
    let cut = if dir.len() == 1 {
        0
    } else {
        dir.len() as int
    };
    assert(name.contains(name[0]));
    assert forall|j: int| cut < j < path.len() implies path[j] != SEPARATOR by {
        assert(path[j] == name[j - cut - 1]);
        assert(name.contains(name[j - cut - 1]));
    }
    lemma_last_separator_is(path, cut);
    assert(path.subrange(cut + 1, path.len() as int) =~= name);
    if dir.len() == 1 {
        assert(dir =~= root());
    } else {
        assert(path.subrange(0, cut) =~= dir);
    }
    assert forall|i: int| 0 <= i < path.len() - 1 && path[i] == SEPARATOR implies #[trigger] path[i
        + 1] != SEPARATOR by {
        if i + 1 <= cut {
            if i + 1 < dir.len() {
                assert(dir[i] == SEPARATOR);
                assert(dir[i + 1] != SEPARATOR);
            }
        } else {
            assert(name.contains(name[i + 1 - cut - 1]));
        }
    }
    assert(name.contains(name.last()));
}

/// Only the root has no parent among absolute paths, and the parent of an
/// absolute path is absolute.
pub proof fn lemma_parent_of_absolute(path: Seq<char>)
    requires
        is_absolute(path),
    ensures
        parent_of(path) is None <==> path == root(),
        parent_of(path) matches Some(dir) ==> is_absolute(dir) && dir.len() < path.len(),
{
    lemma_last_separator(path);
    let cut = last_separator(path);
    if cut < 0 {
        assert(path[0] == SEPARATOR);
    }
    if path.len() == 1 {
        assert(path =~= root());
    } else if cut > 0 {
        let dir = path.subrange(0, cut);
        assert(path[(cut - 1) + 1] == SEPARATOR);
        assert forall|i: int| 0 <= i < dir.len() - 1 && dir[i] == SEPARATOR implies #[trigger] dir[i
            + 1] != SEPARATOR by {
            assert(path[i + 1] != SEPARATOR);
        }
    }
}

/// Replacing the last component keeps the directory: the new path has the new
/// name as its last component and the same parent.
pub proof fn lemma_with_file_name(path: Seq<char>, name: Seq<char>)
    requires
        !name.contains(SEPARATOR),
    ensures
        file_name_of(with_file_name_of(path, name)) == name,
        directory_prefix(with_file_name_of(path, name)) == directory_prefix(path),
        name.len() > 0 && path.len() > 1 ==> parent_of(with_file_name_of(path, name)) == parent_of(
            path,
        ),
{
    lemma_last_separator(path);
    let cut = last_separator(path);
    let out = with_file_name_of(path, name);
    assert forall|j: int| cut < j < out.len() implies out[j] != SEPARATOR by {
        assert(name.contains(name[j - cut - 1]));
    }
    lemma_last_separator_is(out, cut);
    assert(out.subrange(cut + 1, out.len() as int) =~= name);
    assert(out.subrange(0, cut + 1) =~= path.subrange(0, cut + 1));
    if cut > 0 {
        assert(out.subrange(0, cut) =~= path.subrange(0, cut));
    }
}

} // verus!
