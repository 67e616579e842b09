//! Character-level helpers shared by the IP classifier and the notification
//! URL builder: collecting a `&str` into characters, equality of strings,
//! splitting on a separator, and rendering a `u64` in decimal.

use vstd::prelude::*;
use vstd::string::StrSliceExecFns;
use vstd::string::StringExecFns;

verus! {

/// The character of a decimal digit value.
pub open spec fn digit_char(d: int) -> char
    recommends
        0 <= d <= 9,
{
    if d == 0 {
        '0'
    } else if d == 1 {
        '1'
    } else if d == 2 {
        '2'
    } else if d == 3 {
        '3'
    } else if d == 4 {
        '4'
    } else if d == 5 {
        '5'
    } else if d == 6 {
        '6'
    } else if d == 7 {
        '7'
    } else if d == 8 {
        '8'
    } else {
        '9'
    }
}

/// The decimal digit characters of `n`, most significant first.
pub open spec fn dec_digits_of(n: int) -> Seq<char>
    recommends
        n >= 0,
    decreases n,
{
    if n < 10 {
        seq![digit_char(n)]
    } else {
        dec_digits_of(n / 10) + seq![digit_char(n % 10)]
    }
}

/// The string of one decimal digit value.
fn digit_str(d: u64) -> (r: &'static str)
    requires
        d <= 9,
    ensures
        r@ == seq![digit_char(d as int)],
{
    proof {
        reveal_strlit("0");
        reveal_strlit("1");
        reveal_strlit("2");
        reveal_strlit("3");
        reveal_strlit("4");
        reveal_strlit("5");
        reveal_strlit("6");
        reveal_strlit("7");
        reveal_strlit("8");
        reveal_strlit("9");
    }
    match d {
        0 => "0",
        1 => "1",
        2 => "2",
        3 => "3",
        4 => "4",
        5 => "5",
        6 => "6",
        7 => "7",
        8 => "8",
        _ => "9",
    }
}

/// Renders an unsigned number in decimal.
pub fn u64_to_dec(n: u64) -> (s: String)
    ensures
        s@ == dec_digits_of(n as int),
    decreases n,
{
    if n < 10 {
        let mut s = String::new();
        s.append(digit_str(n));
        proof {
            assert(s@ =~= seq![digit_char(n as int)]);
        }
        s
    } else {
        let mut s = u64_to_dec(n / 10);
        s.append(digit_str(n % 10));
        proof {
            assert(s@ =~= dec_digits_of((n / 10) as int) + seq![digit_char((n % 10) as int)]);
        }
        s
    }
}

/// Collects the characters of a string slice into a vector, so that parsing
/// routines can index characters in constant time.
pub fn chars_of(s: &str) -> (v: Vec<char>)
    ensures
        v@ == s@,
{
    let len = s.unicode_len();
    let mut v: Vec<char> = Vec::new();
    let mut i: usize = 0;
    while i < len
        invariant
            i <= len,
            len == s@.len(),
            v@ == s@.take(i as int),
        decreases len - i,
    {
        v.push(s.get_char(i));
        i = i + 1;
        proof {
            assert(v@ =~= s@.take(i as int));
        }
    }
    proof {
        assert(v@ =~= s@);
    }
    v
}

/// Character-for-character equality of two string slices.
pub fn str_eq(a: &str, b: &str) -> (r: bool)
    ensures
        r == (a@ == b@),
{
    let la = a.unicode_len();
    let lb = b.unicode_len();
    if la != lb {
        return false;
    }
    let mut i: usize = 0;
    while i < la
        invariant
            i <= la,
            la == a@.len(),
            lb == b@.len(),
            la == lb,
            forall|j: int| 0 <= j < i ==> a@[j] == b@[j],
        decreases la - i,
    {
        if a.get_char(i) != b.get_char(i) {
            return false;
        }
        i = i + 1;
    }
    proof {
        assert(a@ =~= b@);
    }
    true
}

/// The parts of `s` lying between occurrences of `sep`: splitting `a:b` on
/// `:` gives `[a, b]`, separators at either end contribute empty parts, and a
/// string without the separator is a single part.
pub open spec fn split_seq(s: Seq<char>, sep: char) -> Seq<Seq<char>>
    decreases s.len(),
{
    if s.len() == 0 {
        seq![Seq::<char>::empty()]
    } else if s[0] == sep {
        seq![Seq::<char>::empty()] + split_seq(s.skip(1), sep)
    } else {
        let rest = split_seq(s.skip(1), sep);
        seq![seq![s[0]] + rest[0]] + rest.skip(1)
    }
}

pub proof fn lemma_split_seq_nonempty(s: Seq<char>, sep: char)
    ensures
        split_seq(s, sep).len() >= 1,
    decreases s.len(),
{
    if s.len() != 0 {
        lemma_split_seq_nonempty(s.skip(1), sep);
    }
}

/// The views of a sequence of character vectors.
pub open spec fn views_of(parts: Seq<Vec<char>>) -> Seq<Seq<char>> {
    parts.map_values(|p: Vec<char>| p@)
}

/// Splits a character slice on a separator, mirroring `split_seq`.
pub fn split_chars(s: &[char], sep: char) -> (parts: Vec<Vec<char>>)
    ensures
        views_of(parts@) == split_seq(s@, sep),
{
    let ghost full = split_seq(s@, sep);
    let mut out: Vec<Vec<char>> = Vec::new();
    let mut buf: Vec<char> = Vec::new();
    let mut i: usize = 0;
    proof {
        lemma_split_seq_nonempty(s@, sep);
        assert(s@.skip(0) =~= s@);
        assert(views_of(out@) =~= Seq::<Seq<char>>::empty());
        assert(buf@ + full[0] =~= full[0]);
        assert(full =~= views_of(out@) + seq![buf@ + full[0]] + full.skip(1));
    }
    while i < s.len()
        invariant
            i <= s.len(),
            full == split_seq(s@, sep),
            split_seq(s@.skip(i as int), sep).len() >= 1,
            full == views_of(out@) + seq![buf@ + split_seq(s@.skip(i as int), sep)[0]]
                + split_seq(s@.skip(i as int), sep).skip(1),
        decreases s.len() - i,
    {
        let ghost before = split_seq(s@.skip(i as int), sep);
        let ghost out0 = out@;
        let ghost buf0 = buf@;
        proof {
            assert(s@.skip(i as int)[0] == s@[i as int]);
            assert(s@.skip(i as int).skip(1) =~= s@.skip(i + 1));
            lemma_split_seq_nonempty(s@.skip(i + 1), sep);
        }
        let ghost after = split_seq(s@.skip(i + 1), sep);
        if s[i] == sep {
            let done = buf;
            buf = Vec::new();
            out.push(done);
            proof {
                assert(before =~= seq![Seq::<char>::empty()] + after);
                assert(buf0 + before[0] =~= buf0);
                assert(before.skip(1) =~= after);
                assert(full =~= views_of(out0) + seq![buf0] + after);
                assert(views_of(out@) =~= views_of(out0) + seq![buf0]);
                assert(after =~= seq![after[0]] + after.skip(1));
                assert(buf@ + after[0] =~= after[0]);
                assert(full =~= views_of(out@) + seq![buf@ + after[0]] + after.skip(1));
            }
        } else {
            let c = s[i];
            buf.push(c);
            proof {
                assert(before =~= seq![seq![s@[i as int]] + after[0]] + after.skip(1));
                assert(before[0] =~= seq![s@[i as int]] + after[0]);
                assert(before.skip(1) =~= after.skip(1));
                assert(buf@ + after[0] =~= buf0 + before[0]);
                assert(full =~= views_of(out@) + seq![buf@ + after[0]] + after.skip(1));
            }
        }
        i = i + 1;
    }
    proof {
        assert(s@.skip(i as int) =~= Seq::<char>::empty());
        assert(split_seq(s@.skip(i as int), sep) =~= seq![Seq::<char>::empty()]);
        assert(buf@ + Seq::<char>::empty() =~= buf@);
        assert(full =~= views_of(out@) + seq![buf@]);
    }
    let ghost out1 = out@;
    let tail = buf;
    out.push(tail);
    proof {
        assert(views_of(out@) =~= views_of(out1) + seq![tail@]);
        assert(views_of(out@) =~= full);
    }
    out
}

/// `s` with every occurrence of `pat` replaced by `sub`, scanning left to
/// right; an empty pattern leaves `s` unchanged.
pub open spec fn replace_seq(s: Seq<char>, pat: Seq<char>, sub: Seq<char>) -> Seq<char>
    decreases s.len(),
{
    if pat.len() == 0 || s.len() < pat.len() {
        s
    } else if s.take(pat.len() as int) == pat {
        sub + replace_seq(s.skip(pat.len() as int), pat, sub)
    } else {
        seq![s[0]] + replace_seq(s.skip(1), pat, sub)
    }
}

/// Checks whether `pat` occurs in `s` at position `i`.
fn matches_at(s: &[char], i: usize, pat: &[char]) -> (r: bool)
    requires
        i + pat@.len() <= s@.len(),
    ensures
        r == (s@.subrange(i as int, i + pat@.len()) == pat@),
{
    let n = s.len();
    let mut j: usize = 0;
    while j < pat.len()
        invariant
            j <= pat@.len(),
            i + pat@.len() <= s@.len(),
            n == s@.len(),
            forall|k: int| 0 <= k < j ==> s@[i + k] == pat@[k],
        decreases pat@.len() - j,
    {
        if s[i + j] != pat[j] {
            proof {
                assert(s@.subrange(i as int, i + pat@.len())[j as int] == s@[i + j]);
            }
            return false;
        }
        j = j + 1;
    }
    proof {
        assert(s@.subrange(i as int, i + pat@.len()) =~= pat@);
    }
    true
}

/// Replaces every occurrence of `pat` in `s` by `sub`, scanning left to
/// right, mirroring `replace_seq`.
pub fn replace_chars(s: &[char], pat: &[char], sub: &[char]) -> (out: Vec<char>)
    ensures
        out@ == replace_seq(s@, pat@, sub@),
{
    let ghost full = replace_seq(s@, pat@, sub@);
    let mut out: Vec<char> = Vec::new();
    let mut i: usize = 0;
    proof {
        assert(s@.skip(0) =~= s@);
    }
    while i < s.len()
        invariant
            i <= s@.len(),
            full == replace_seq(s@, pat@, sub@),
            full == out@ + replace_seq(s@.skip(i as int), pat@, sub@),
        decreases s@.len() - i,
    {
        let ghost rest = s@.skip(i as int);
        let ghost out0 = out@;
        if pat.len() > 0 && pat.len() <= s.len() - i && matches_at(s, i, pat) {
            proof {
                assert(rest.take(pat@.len() as int) =~= s@.subrange(i as int, i + pat@.len()));
                assert(rest.skip(pat@.len() as int) =~= s@.skip(i + pat@.len()));
                assert(replace_seq(rest, pat@, sub@) == sub@ + replace_seq(
                    s@.skip(i + pat@.len()),
                    pat@,
                    sub@,
                ));
            }
            let mut j: usize = 0;
            while j < sub.len()
                invariant
                    j <= sub@.len(),
                    out@ == out0 + sub@.take(j as int),
                decreases sub@.len() - j,
            {
                out.push(sub[j]);
                proof {
                    assert(out@ =~= out0 + sub@.take(j + 1));
                }
                j = j + 1;
            }
            proof {
                assert(sub@.take(sub@.len() as int) =~= sub@);
                assert(out@ + replace_seq(s@.skip(i + pat@.len()), pat@, sub@) =~= out0
                    + replace_seq(rest, pat@, sub@));
            }
            i = i + pat.len();
        } else {
            let c = s[i];
            proof {
                assert(rest[0] == s@[i as int]);
                assert(rest.skip(1) =~= s@.skip(i + 1));
                if pat@.len() == 0 || rest.len() < pat@.len() {
                    assert(replace_seq(rest, pat@, sub@) == rest);
                    assert(replace_seq(s@.skip(i + 1), pat@, sub@) == s@.skip(i + 1));
                    assert(rest =~= seq![rest[0]] + rest.skip(1));
                } else {
                    assert(rest.take(pat@.len() as int) =~= s@.subrange(
                        i as int,
                        i + pat@.len(),
                    ));
                    assert(rest.take(pat@.len() as int) != pat@);
                    assert(replace_seq(rest, pat@, sub@) == seq![rest[0]] + replace_seq(
                        rest.skip(1),
                        pat@,
                        sub@,
                    ));
                }
            }
            out.push(c);
            proof {
                assert(out@ + replace_seq(s@.skip(i + 1), pat@, sub@) =~= out0 + replace_seq(
                    rest,
                    pat@,
                    sub@,
                ));
            }
            i = i + 1;
        }
    }
    proof {
        assert(s@.skip(i as int) =~= Seq::<char>::empty());
        assert(replace_seq(s@.skip(i as int), pat@, sub@) == Seq::<char>::empty());
        assert(full =~= out@);
    }
    out
}

/// Relies on `String`'s `FromIterator` over characters: collecting an
/// iterator of characters yields exactly those characters.
#[verifier::external_body]
pub fn chars_to_string(v: &Vec<char>) -> (s: String)
    ensures
        s@ == v@,
{
    v.iter().collect()
}

} // verus!
