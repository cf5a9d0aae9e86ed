//! Paths as text, with `/` as the separator.

use vstd::prelude::*;

verus! {

/// The separator between the components of a path.
pub const SEPARATOR: char = '/';

/// Whether `path` starts at the root.
pub open spec fn is_absolute(path: Seq<char>) -> bool {
    path.len() > 0 && path[0] == SEPARATOR
}

/// Whether a separator has to be put between `dir` and what is adjoined to it.
pub open spec fn needs_separator(dir: Seq<char>) -> bool {
    dir.len() > 0 && dir.last() != SEPARATOR
}

/// `name` adjoined to `dir`: an absolute `name` replaces `dir`; otherwise `name`
/// follows `dir`, with one separator between them unless `dir` is empty or ends
/// with one already.
pub open spec fn joined(dir: Seq<char>, name: Seq<char>) -> Seq<char> {
    if is_absolute(name) {
        name
    } else if needs_separator(dir) {
        dir.push(SEPARATOR) + name
    } else {
        dir + name
    }
}

/// Adjoins `name` to `dir`.
pub fn join(dir: &str, name: &str) -> (path: String)
    ensures
        path@ == joined(dir@, name@),
{
    let name_len: usize = name.unicode_len();
    if name_len > 0 && name.get_char(0) == SEPARATOR {
        return String::from_str(name);
    }
    let dir_len: usize = dir.unicode_len();
    let mut path = String::from_str(dir);
    if dir_len > 0 && dir.get_char(dir_len - 1) != SEPARATOR {
        path.append("/");
        proof {
            reveal_strlit("/");
            assert("/"@ == seq![SEPARATOR]);
        }
    }
    path.append(name);
    path
}

/// Adjoining a relative name extends the directory: the result starts with
/// `dir` and ends with `name`, and nothing but at most one separator stands
/// between them.
pub proof fn lemma_joined_relative(dir: Seq<char>, name: Seq<char>)
    requires
        !is_absolute(name),
    ensures
        dir.is_prefix_of(joined(dir, name)),
        name.is_suffix_of(joined(dir, name)),
        dir.len() + name.len() <= joined(dir, name).len() <= dir.len() + name.len() + 1,
{
}

} // verus!
