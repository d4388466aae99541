//! Path strings, modelled as sequences of characters.
//!
//! A path is held as a plain `String`; `/` separates its components. The
//! functions here pick a path apart: the base name (what follows the last
//! separator), the extension (what follows the last dot of the base name,
//! provided that dot is not its first character), and joining a directory
//! with a file name.

use vstd::prelude::*;

verus! {

/// Index of the last occurrence of `c` in `s`, or `-1` if `c` does not occur.
pub open spec fn last_occurrence(s: Seq<char>, c: char) -> int
    decreases s.len(),
{
    if s.len() == 0 {
        -1
    } else if s[s.len() - 1] == c {
        s.len() - 1
    } else {
        last_occurrence(s.drop_last(), c)
    }
}

/// The base name of a path: everything after the last `/`, which is the
/// whole path when there is no `/`.
pub open spec fn base_name_of(p: Seq<char>) -> Seq<char> {
    p.subrange(last_occurrence(p, '/') + 1, p.len() as int)
}

/// The extension of a path: what follows the last `.` of the base name,
/// provided that dot is neither absent nor the base name's first character
/// (so `archive.tar` has extension `tar`, while `.hidden` has none).
pub open spec fn extension_of(p: Seq<char>) -> Option<Seq<char>> {
    let name = base_name_of(p);
    let d = last_occurrence(name, '.');
    if d > 0 {
        Some(name.subrange(d + 1, name.len() as int))
    } else {
        None
    }
}

/// A directory joined with a file name: a `/` is inserted unless the
/// directory is empty or already ends in `/`.
pub open spec fn joined_path(dir: Seq<char>, name: Seq<char>) -> Seq<char> {
    if dir.len() == 0 {
        name
    } else if dir[dir.len() - 1] == '/' {
        dir + name
    } else {
        dir + seq!['/'] + name
    }
}

/// Scan `s` from the end for `c`.
fn find_last(s: &str, c: char) -> (r: Option<usize>)
    ensures
        r matches Some(j) ==> j < s@.len() && last_occurrence(s@, c) == j,
        r is None ==> last_occurrence(s@, c) == -1,
{
    let n = s.unicode_len();
    let mut i = n;
    proof {
        assert(s@.take(n as int) =~= s@);
    }
    while i > 0
        invariant
            i <= n,
            n == s@.len(),
            last_occurrence(s@, c) == last_occurrence(s@.take(i as int), c),
        decreases i,
    {
        let ch = s.get_char(i - 1);
        if ch == c {
            proof {
                assert(s@.take(i as int).len() == i);
                assert(s@.take(i as int)[i - 1] == c);
            }
            return Some(i - 1);
        }
        proof {
            assert(s@.take(i as int)[i - 1] != c);
            assert(s@.take(i as int).drop_last() =~= s@.take(i - 1));
        }
        i = i - 1;
    }
    proof {
        assert(s@.take(0).len() == 0);
    }
    None
}

/// The base name of `p`: everything after the last `/`.
pub fn base_name(p: &str) -> (r: String)
    ensures
        r@ == base_name_of(p@),
{
    let n = p.unicode_len();
    let start: usize = match find_last(p, '/') {
        Some(j) => j + 1,
        None => 0,
    };
    proof {
        assert(start == last_occurrence(p@, '/') + 1);
    }
    let sub = p.substring_char(start, n);
    String::from_str(sub)
}

/// The extension of `p`, as [`extension_of`] gives it.
pub fn extension(p: &str) -> (r: Option<String>)
    ensures
        extension_of(p@) matches Some(es) ==> (r matches Some(e) && e@ == es),
        extension_of(p@) is None ==> r is None,
{
    let name = base_name(p);
    let nl = name.as_str().unicode_len();
    match find_last(name.as_str(), '.') {
        Some(d) => {
            if d > 0 {
                let e = name.as_str().substring_char(d + 1, nl);
                Some(String::from_str(e))
            } else {
                None
            }
        },
        None => None,
    }
}

/// Join a directory path with a file name, inserting `/` where needed.
pub fn join_path(dir: &str, name: &str) -> (r: String)
    ensures
        r@ == joined_path(dir@, name@),
{
    let n = dir.unicode_len();
    if n == 0 {
        String::from_str(name)
    } else if dir.get_char(n - 1) == '/' {
        let r = String::from_str(dir).concat(name);
        r
    } else {
        let mut r = String::from_str(dir);
        r.append("/");
        r.append(name);
        proof {
            reveal_strlit("/");
            assert("/"@ =~= seq!['/']);
            assert(r@ =~= dir@ + seq!['/'] + name@);
        }
        r
    }
}

} // verus!
