//! Text helpers over character sequences: concatenation of literal parts,
//! comparison, and the relative-path policy for query files.

use vstd::prelude::*;

verus! {

/// The concatenation of all parts, in order.
pub open spec fn joined(parts: Seq<String>) -> Seq<char>
    decreases parts.len(),
{
    if parts.len() == 0 {
        Seq::<char>::empty()
    } else {
        joined(parts.drop_last()) + parts.last()@
    }
}

/// Concatenates string literal parts in order.
pub fn concat_literals(parts: &Vec<String>) -> (r: String)
    ensures
        r@ == joined(parts@),
{
    let mut acc = String::new();
    let mut i: usize = 0;
    while i < parts.len()
        invariant
            i <= parts@.len(),
            acc@ == joined(parts@.subrange(0, i as int)),
        decreases parts@.len() - i,
    {
        let ghost before = parts@.subrange(0, i as int);
        acc.append(parts[i].as_str());
        proof {
            assert(parts@.subrange(0, i + 1).drop_last() =~= before);
        }
        i = i + 1;
    }
    proof {
        assert(parts@.subrange(0, parts@.len() as int) =~= parts@);
    }
    acc
}

/// Whether two strings hold the same characters.
pub fn same_text(a: &str, b: &str) -> (r: bool)
    ensures
        r == (a@ == b@),
{
    let n = a.unicode_len();
    if n != b.unicode_len() {
        return false;
    }
    let mut i: usize = 0;
    while i < n
        invariant
            n == a@.len(),
            n == b@.len(),
            i <= n,
            forall|k: int| 0 <= k < i ==> a@[k] == b@[k],
        decreases n - i,
    {
        if a.get_char(i) != b.get_char(i) {
            return false;
        }
        i = i + 1;
    }
    proof {
        assert(a@ =~= b@);
    }
    true
}

/// A path is absolute when it starts at the root.
pub open spec fn is_absolute_path(p: Seq<char>) -> bool {
    p.len() > 0 && p[0] == '/'
}

/// A path names a parent directory when some separator is followed, later on,
/// by a character other than a separator.
pub open spec fn has_parent_dir(p: Seq<char>) -> bool {
    exists|i: int, j: int| 0 <= i < j < p.len() && p[i] == '/' && p[j] != '/'
}

/// Joins a relative path onto a base directory, adding a separator when the
/// base does not end with one.
pub open spec fn join_path(base: Seq<char>, p: Seq<char>) -> Seq<char> {
    if base.len() == 0 || base.last() == '/' {
        base + p
    } else {
        base + seq!['/'] + p
    }
}

/// Whether `p` starts at the root.
pub fn path_is_absolute(p: &str) -> (r: bool)
    ensures
        r == is_absolute_path(p@),
{
    p.unicode_len() > 0 && p.get_char(0) == '/'
}

/// Whether `p` names a parent directory.
pub fn path_has_parent(p: &str) -> (r: bool)
    ensures
        r == has_parent_dir(p@),
{
    let n = p.unicode_len();
    let mut seen_sep = false;
    let mut i: usize = 0;
    while i < n
        invariant
            n == p@.len(),
            i <= n,
            seen_sep == (exists|k: int| 0 <= k < i && p@[k] == '/'),
            !(exists|a: int, b: int| 0 <= a < b < i && p@[a] == '/' && p@[b] != '/'),
        decreases n - i,
    {
        let c = p.get_char(i);
        if c != '/' && seen_sep {
            let ghost k = choose|k: int| 0 <= k < i && p@[k] == '/';
            assert(0 <= k < i && p@[k] == '/' && p@[i as int] != '/');
            return true;
        }
        if c == '/' {
            seen_sep = true;
        }
        i = i + 1;
    }
    false
}

/// Joins `p` onto `base`.
pub fn join_relative(base: &str, p: &str) -> (r: String)
    ensures
        r@ == join_path(base@, p@),
{
    let mut out = String::from_str(base);
    let n = base.unicode_len();
    if n > 0 && base.get_char(n - 1) != '/' {
        out.append("/");
        proof {
            reveal_strlit("/");
        }
    }
    out.append(p);
    proof {
        reveal_strlit("/");
    }
    out
}

} // verus!
