//! Path text: extensions, object names and joining.

use vstd::prelude::*;
use vstd::string::*;
use crate::text::{joined, owned};

verus! {

/// The index of the last `c` in `cs`, or -1 when there is none.
pub open spec fn last_index(cs: Seq<char>, c: char) -> int
    decreases cs.len(),
{
    if cs.len() == 0 {
        -1
    } else if cs.last() == c {
        cs.len() - 1
    } else {
        last_index(cs.drop_last(), c)
    }
}

pub open spec fn last_dot(cs: Seq<char>) -> int {
    last_index(cs, '.')
}

/// The last component of a path: what follows its last `/`.
pub open spec fn base_name(path: Seq<char>) -> Seq<char> {
    path.subrange(last_index(path, '/') + 1, path.len() as int)
}

/// The extension of the file that a path names.
pub open spec fn path_extension(path: Seq<char>) -> Seq<char> {
    extension_of(base_name(path))
}

/// The extension of a file name: what follows its last `.`, when that dot is
/// not the name's first character; otherwise nothing.
pub open spec fn extension_of(name: Seq<char>) -> Seq<char> {
    let k = last_dot(name);
    if k > 0 {
        name.subrange(k + 1, name.len() as int)
    } else {
        Seq::empty()
    }
}

/// A file name without its extension and the dot before it.
pub open spec fn stem_of(name: Seq<char>) -> Seq<char> {
    let k = last_dot(name);
    if k > 0 {
        name.subrange(0, k)
    } else {
        name
    }
}

/// The object file name for a source file name: its extension replaced by `o`.
pub open spec fn object_name_of(name: Seq<char>) -> Seq<char> {
    stem_of(name) + ".o"@
}

/// `rest` below `base`; a rooted `rest` stands for itself.
pub open spec fn joined_path(base: Seq<char>, rest: Seq<char>) -> Seq<char> {
    if rest.len() > 0 && rest[0] == '/' {
        rest
    } else if base.len() == 0 {
        rest
    } else if base.last() == '/' {
        base + rest
    } else {
        base + "/"@ + rest
    }
}

/// Whether a directory entry is hidden: its name starts with `.`.
pub open spec fn hidden(name: Seq<char>) -> bool {
    name.len() > 0 && name[0] == '.'
}

proof fn lemma_last_index_bounds(cs: Seq<char>, c: char)
    ensures
        -1 <= last_index(cs, c) < cs.len(),
    decreases cs.len(),
{
    if cs.len() > 0 && cs.last() != c {
        lemma_last_index_bounds(cs.drop_last(), c);
    }
}

fn find_last(name: &str, c: char) -> (r: Option<usize>)
    ensures
        match r {
            Some(k) => last_index(name@, c) == k as int,
            None => last_index(name@, c) == -1,
        },
{
    let ghost cs = name@;
    let n = name.unicode_len();
    let mut j: usize = n;
    assert(cs.subrange(0, n as int) =~= cs);
    while j > 0
        invariant
            cs == name@,
            n == cs.len(),
            j <= n,
            last_index(cs, c) == last_index(cs.subrange(0, j as int), c),
        decreases j,
    {
        if name.get_char(j - 1) == c {
            return Some(j - 1);
        }
        assert(cs.subrange(0, j as int).drop_last() =~= cs.subrange(0, j - 1));
        j = j - 1;
    }
    None
}

/// The extension of a file name.
pub fn get_extension(file_name: &str) -> (r: String)
    ensures
        r@ == extension_of(file_name@),
{
    proof {
        lemma_last_index_bounds(file_name@, '.');
    }
    let n = file_name.unicode_len();
    match find_last(file_name, '.') {
        Some(k) => if k > 0 {
            owned(file_name.substring_char(k + 1, n))
        } else {
            String::new()
        },
        None => String::new(),
    }
}

/// The object file name for a source file name.
pub fn object_name(file_name: &str) -> (r: String)
    ensures
        r@ == object_name_of(file_name@),
{
    proof {
        lemma_last_index_bounds(file_name@, '.');
    }
    let stem = match find_last(file_name, '.') {
        Some(k) => if k > 0 {
            file_name.substring_char(0, k)
        } else {
            file_name
        },
        None => file_name,
    };
    joined(stem, ".o")
}

/// The extension of the file that `path` names.
pub fn path_extension_of(path: &str) -> (r: String)
    ensures
        r@ == path_extension(path@),
{
    proof {
        lemma_last_index_bounds(path@, '/');
    }
    let n = path.unicode_len();
    let start: usize = match find_last(path, '/') {
        Some(k) => k + 1,
        None => 0,
    };
    get_extension(path.substring_char(start, n))
}

/// `rest` below `base`.
pub fn join_path(base: &str, rest: &str) -> (r: String)
    ensures
        r@ == joined_path(base@, rest@),
{
    let nb = base.unicode_len();
    if rest.unicode_len() > 0 && rest.get_char(0) == '/' {
        owned(rest)
    } else if nb == 0 {
        owned(rest)
    } else if base.get_char(nb - 1) == '/' {
        joined(base, rest)
    } else {
        let mut r = joined(base, "/");
        r.append(rest);
        r
    }
}

/// Whether a directory entry is hidden.
pub fn is_hidden(name: &str) -> (r: bool)
    ensures
        r == hidden(name@),
{
    name.unicode_len() > 0 && name.get_char(0) == '.'
}

} // verus!
