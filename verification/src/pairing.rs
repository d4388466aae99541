//! Pair generation: one (source, destination) path pair per listed file.
//!
//! The i-th listed file (0-based) is sent to the destination directory
//! under the name `{prefix}_{i}{.ext}`, where `.ext` appears only when the
//! source file has an extension, preserved verbatim. Destination paths are
//! computed here alone; nothing in this module touches the filesystem.

use vstd::prelude::*;

use crate::listing::DirEntry;
use crate::listing::filter_regular_files;
use crate::listing::regular_file_paths;
use crate::paths::base_name;
use crate::paths::base_name_of;
use crate::paths::extension;
use crate::paths::extension_of;
use crate::paths::join_path;
use crate::paths::joined_path;

verus! {

/// The character of a single decimal digit.
pub open spec fn dec_digit_char(d: nat) -> char {
    if d == 0 {
        '0'
    } else if d == 1 {
        '1'
    } else if d == 2 {
        '2'
    } else if d == 3 {
        '3'
    } else if d == 4 {
        '4'
    } else if d == 5 {
        '5'
    } else if d == 6 {
        '6'
    } else if d == 7 {
        '7'
    } else if d == 8 {
        '8'
    } else {
        '9'
    }
}

/// The decimal digits of `n`, most significant first, with no leading zero
/// (and the single digit `0` for zero itself).
pub open spec fn dec_digits(n: nat) -> Seq<char>
    decreases n,
{
    if n < 10 {
        seq![dec_digit_char(n)]
    } else {
        dec_digits(n / 10).push(dec_digit_char(n % 10))
    }
}

/// The suffix a destination name carries for the source's extension: `.`
/// followed by the extension when there is one, nothing otherwise.
pub open spec fn extension_suffix(source: Seq<char>) -> Seq<char> {
    match extension_of(source) {
        Some(e) => seq!['.'] + e,
        None => Seq::empty(),
    }
}

/// The destination file name of the `index`-th source file:
/// `{prefix}_{index}{.ext}`.
pub open spec fn dest_file_name(prefix: Seq<char>, index: nat, source: Seq<char>) -> Seq<char> {
    prefix + seq!['_'] + dec_digits(index) + extension_suffix(source)
}

/// A one-character string for the digit `d`.
fn digit_str(d: usize) -> (s: &'static str)
    requires
        d < 10,
    ensures
        s@ == seq![dec_digit_char(d as nat)],
{
    let s: &'static str = if d == 0 {
        "0"
    } else if d == 1 {
        "1"
    } else if d == 2 {
        "2"
    } else if d == 3 {
        "3"
    } else if d == 4 {
        "4"
    } else if d == 5 {
        "5"
    } else if d == 6 {
        "6"
    } else if d == 7 {
        "7"
    } else if d == 8 {
        "8"
    } else {
        "9"
    };
    proof {
        reveal_strlit("0");
        reveal_strlit("1");
        reveal_strlit("2");
        reveal_strlit("3");
        reveal_strlit("4");
        reveal_strlit("5");
        reveal_strlit("6");
        reveal_strlit("7");
        reveal_strlit("8");
        reveal_strlit("9");
        assert(s@ =~= seq![dec_digit_char(d as nat)]);
    }
    s
}

/// Render `n` in decimal.
pub fn format_index(n: usize) -> (s: String)
    ensures
        s@ == dec_digits(n as nat),
    decreases n,
{
    if n < 10 {
        String::from_str(digit_str(n))
    } else {
        let mut s = format_index(n / 10);
        s.append(digit_str(n % 10));
        proof {
            assert(s@ =~= dec_digits((n / 10) as nat).push(dec_digit_char((n % 10) as nat)));
        }
        s
    }
}

/// Build the destination file name `{prefix}_{index}{.ext}` for `source`.
pub fn dest_name(prefix: &str, index: usize, source: &str) -> (r: String)
    ensures
        r@ == dest_file_name(prefix@, index as nat, source@),
{
    let mut s = String::from_str(prefix);
    s.append("_");
    let digits = format_index(index);
    s.append(digits.as_str());
    proof {
        reveal_strlit("_");
        assert("_"@ =~= seq!['_']);
    }
    match extension(source) {
        Some(e) => {
            s.append(".");
            s.append(e.as_str());
            proof {
                reveal_strlit(".");
                assert("."@ =~= seq!['.']);
                assert(s@ =~= dest_file_name(prefix@, index as nat, source@));
            }
        },
        None => {
            proof {
                assert(s@ =~= dest_file_name(prefix@, index as nat, source@));
            }
        },
    }
    s
}

proof fn lemma_dec_digit_char_injective(d1: nat, d2: nat)
    requires
        d1 < 10,
        d2 < 10,
        dec_digit_char(d1) == dec_digit_char(d2),
    ensures
        d1 == d2,
{
}

proof fn lemma_dec_digits_len(n: nat)
    ensures
        dec_digits(n).len() >= 1,
        n >= 10 ==> dec_digits(n).len() >= 2,
    decreases n,
{
    if n >= 10 {
        lemma_dec_digits_len(n / 10);
    }
}

proof fn lemma_dec_digits_no_dot(n: nat)
    ensures
        forall|k: int| 0 <= k < dec_digits(n).len() ==> dec_digits(n)[k] != '.',
    decreases n,
{
    if n >= 10 {
        lemma_dec_digits_no_dot(n / 10);
        assert forall|k: int| 0 <= k < dec_digits(n).len() implies dec_digits(n)[k] != '.' by {
            if k < dec_digits(n / 10).len() {
                assert(dec_digits(n)[k] == dec_digits(n / 10)[k]);
            } else {
                assert(dec_digits(n)[k] == dec_digit_char(n % 10));
            }
        }
    }
}

proof fn lemma_dec_digits_injective(m: nat, n: nat)
    requires
        dec_digits(m) == dec_digits(n),
    ensures
        m == n,
    decreases m,
{
    if m < 10 && n < 10 {
        assert(dec_digits(m)[0] == dec_digit_char(m));
        assert(dec_digits(n)[0] == dec_digit_char(n));
        lemma_dec_digit_char_injective(m, n);
    } else if m < 10 {
        lemma_dec_digits_len(n);
        assert(dec_digits(m).len() == 1);
        assert(false);
    } else if n < 10 {
        lemma_dec_digits_len(m);
        assert(dec_digits(n).len() == 1);
        assert(false);
    } else {
        assert(dec_digits(m).last() == dec_digit_char((m % 10) as nat));
        assert(dec_digits(n).last() == dec_digit_char((n % 10) as nat));
        lemma_dec_digit_char_injective((m % 10) as nat, (n % 10) as nat);
        assert(dec_digits(m / 10) =~= dec_digits(m).drop_last());
        assert(dec_digits(n / 10) =~= dec_digits(n).drop_last());
        lemma_dec_digits_injective(m / 10, n / 10);
        vstd::arithmetic::div_mod::lemma_fundamental_div_mod(m as int, 10);
        vstd::arithmetic::div_mod::lemma_fundamental_div_mod(n as int, 10);
    }
}

proof fn lemma_concat_cancel_left(p: Seq<char>, x: Seq<char>, y: Seq<char>)
    requires
        p + x == p + y,
    ensures
        x == y,
{
    assert(x =~= (p + x).subrange(p.len() as int, (p + x).len() as int));
    assert(y =~= (p + y).subrange(p.len() as int, (p + y).len() as int));
}

proof fn lemma_digits_suffix_cancel(a: Seq<char>, b: Seq<char>, s: Seq<char>, t: Seq<char>)
    requires
        a + s == b + t,
        forall|k: int| 0 <= k < a.len() ==> a[k] != '.',
        forall|k: int| 0 <= k < b.len() ==> b[k] != '.',
        s.len() == 0 || s[0] == '.',
        t.len() == 0 || t[0] == '.',
    ensures
        a == b,
{
    assert((a + s).len() == (b + t).len());
    if a.len() < b.len() {
        assert(s.len() > 0);
        assert((a + s)[a.len() as int] == s[0]);
        assert((b + t)[a.len() as int] == b[a.len() as int]);
        assert(false);
    } else if b.len() < a.len() {
        assert(t.len() > 0);
        assert((b + t)[b.len() as int] == t[0]);
        assert((a + s)[b.len() as int] == a[b.len() as int]);
        assert(false);
    } else {
        assert forall|k: int| 0 <= k < a.len() implies a[k] == b[k] by {
            assert((a + s)[k] == a[k]);
            assert((b + t)[k] == b[k]);
        }
        assert(a =~= b);
    }
}

proof fn lemma_extension_suffix_shape(source: Seq<char>)
    ensures
        extension_suffix(source).len() == 0 || extension_suffix(source)[0] == '.',
{
}

/// The naming scheme keeps two different indices apart: whatever the
/// prefix and whatever the two source files' extensions, the i-th and the
/// j-th destination file name differ whenever `i != j`.
pub proof fn lemma_distinct_indices_distinct_names(
    prefix: Seq<char>,
    i: nat,
    j: nat,
    src_i: Seq<char>,
    src_j: Seq<char>,
)
    requires
        i != j,
    ensures
        dest_file_name(prefix, i, src_i) != dest_file_name(prefix, j, src_j),
{
    let a = dec_digits(i);
    let b = dec_digits(j);
    let s = extension_suffix(src_i);
    let t = extension_suffix(src_j);
    if dest_file_name(prefix, i, src_i) == dest_file_name(prefix, j, src_j) {
        assert((prefix + seq!['_']) + (a + s) =~= prefix + seq!['_'] + a + s);
        assert((prefix + seq!['_']) + (b + t) =~= prefix + seq!['_'] + b + t);
        lemma_concat_cancel_left(prefix + seq!['_'], a + s, b + t);
        lemma_dec_digits_no_dot(i);
        lemma_dec_digits_no_dot(j);
        lemma_extension_suffix_shape(src_i);
        lemma_extension_suffix_shape(src_j);
        lemma_digits_suffix_cancel(a, b, s, t);
        lemma_dec_digits_injective(i, j);
        assert(false);
    }
}

/// Destination paths within one batch are pairwise distinct: under one
/// destination directory and one prefix, two different indices yield two
/// different destination paths, so no pair of one batch can overwrite
/// another pair of the same batch.
pub proof fn lemma_distinct_destination_paths(
    dir: Seq<char>,
    prefix: Seq<char>,
    i: nat,
    j: nat,
    src_i: Seq<char>,
    src_j: Seq<char>,
)
    requires
        i != j,
    ensures
        joined_path(dir, dest_file_name(prefix, i, src_i)) != joined_path(
            dir,
            dest_file_name(prefix, j, src_j),
        ),
{
    let ni = dest_file_name(prefix, i, src_i);
    let nj = dest_file_name(prefix, j, src_j);
    lemma_distinct_indices_distinct_names(prefix, i, j, src_i, src_j);
    if dir.len() == 0 {
    } else if dir[dir.len() - 1] == '/' {
        if dir + ni == dir + nj {
            lemma_concat_cancel_left(dir, ni, nj);
            assert(false);
        }
    } else {
        if dir + seq!['/'] + ni == dir + seq!['/'] + nj {
            assert((dir + seq!['/']) + ni =~= dir + seq!['/'] + ni);
            assert((dir + seq!['/']) + nj =~= dir + seq!['/'] + nj);
            lemma_concat_cancel_left(dir + seq!['/'], ni, nj);
            assert(false);
        }
    }
}

/// Whether a prefix can be derived from `source`: its base name must be
/// nonempty and must not be one of the relative components `.` and `..`.
pub open spec fn derivable_prefix(source: Seq<char>) -> bool {
    let name = base_name_of(source);
    name.len() > 0 && name != seq!['.'] && name != seq!['.', '.']
}

/// The prefix of a run: the override when one was supplied, otherwise the
/// source directory's base name; an error when neither is available.
pub fn get_prefix(prefix: &Option<String>, source: &str) -> (r: Result<String, String>)
    ensures
        prefix matches Some(p) ==> (r matches Ok(q) && q@ == p@),
        prefix is None && derivable_prefix(source@) ==> (r matches Ok(q) && q@ == base_name_of(
            source@,
        )),
        prefix is None && !derivable_prefix(source@) ==> (r matches Err(m) && m@
            == "Cannot determine prefix from source path. Supply a prefix using the --prefix option."@),
{
    match prefix {
        Some(p) => Ok(p.clone()),
        None => {
            let name = base_name(source);
            let n = name.as_str().unicode_len();
            let dot_only = if n == 1 {
                name.as_str().get_char(0) == '.'
            } else if n == 2 {
                name.as_str().get_char(0) == '.' && name.as_str().get_char(1) == '.'
            } else {
                false
            };
            if n == 0 || dot_only {
                proof {
                    if n == 1 && name@[0] == '.' {
                        assert(name@ =~= seq!['.']);
                    }
                    if n == 2 && name@[0] == '.' && name@[1] == '.' {
                        assert(name@ =~= seq!['.', '.']);
                    }
                }
                Err(
                    String::from_str(
                        "Cannot determine prefix from source path. Supply a prefix using the --prefix option.",
                    ),
                )
            } else {
                proof {
                    if name@ == seq!['.'] {
                        assert(name@[0] == '.');
                    }
                    if name@ == seq!['.', '.'] {
                        assert(name@[0] == '.' && name@[1] == '.');
                    }
                }
                Ok(name)
            }
        },
    }
}

/// One pair per source file, in listing order: the i-th pair keeps the
/// i-th source path and sends it to `{prefix}_{i}{.ext}` inside the
/// destination directory.
pub fn generate_source_destination_pairs(
    source_files: Vec<String>,
    destination_path: String,
    prefix: &str,
) -> (pairs: Vec<(String, String)>)
    ensures
        pairs@.len() == source_files@.len(),
        forall|i: int|
            0 <= i < pairs@.len() ==> (#[trigger] pairs@[i]).0@ == source_files@[i]@
                && pairs@[i].1@ == joined_path(
                destination_path@,
                dest_file_name(prefix@, i as nat, source_files@[i]@),
            ),
{
    let mut pairs: Vec<(String, String)> = Vec::new();
    let n = source_files.len();
    for i in 0..n
        invariant
            n == source_files@.len(),
            pairs@.len() == i,
            forall|j: int|
                0 <= j < i ==> (#[trigger] pairs@[j]).0@ == source_files@[j]@ && pairs@[j].1@
                    == joined_path(
                    destination_path@,
                    dest_file_name(prefix@, j as nat, source_files@[j]@),
                ),
    {
        let src = source_files[i].clone();
        let name = dest_name(prefix, i, src.as_str());
        let dst = join_path(destination_path.as_str(), name.as_str());
        pairs.push((src, dst));
    }
    pairs
}

/// Turn a listing outcome into the run's transfer pairs: a failed listing
/// is fatal and yields the listing's error with no pair generated; a
/// successful one yields one pair per regular file, in listing order.
pub fn plan_transfers(listing: Result<Vec<DirEntry>, String>, destination: &str, prefix: &str) -> (r:
    Result<Vec<(String, String)>, String>)
    ensures
        listing matches Err(e) ==> (r matches Err(m) && m@ == e@),
        listing matches Ok(entries) ==> (r matches Ok(pairs) && {
            let files = regular_file_paths(entries@);
            &&& pairs@.len() == files.len()
            &&& forall|i: int|
                0 <= i < pairs@.len() ==> (#[trigger] pairs@[i]).0@ == files[i] && pairs@[i].1@
                    == joined_path(destination@, dest_file_name(prefix@, i as nat, files[i]))
        }),
{
    match listing {
        Err(e) => Err(e),
        Ok(entries) => {
            let files = filter_regular_files(&entries);
            proof {
                assert(forall|i: int|
                    0 <= i < files@.len() ==> (#[trigger] files@[i])@ == files.deep_view()[i]);
            }
            let pairs = generate_source_destination_pairs(files, String::from_str(destination), prefix);
            Ok(pairs)
        },
    }
}

} // verus!
