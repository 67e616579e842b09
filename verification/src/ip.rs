//! Textual classification of IP addresses.
//!
//! A reconciliation cycle first decides whether the observed address text is
//! IPv4 (an `A` record) or IPv6 (an `AAAA` record); text that is neither is
//! rejected locally and never reaches the provider.  The grammar is stated
//! over the parts of the text between separators: dotted-quad octets for
//! IPv4, and 16-bit hexadecimal groups with at most one `::` elision and an
//! optional embedded IPv4 tail for IPv6.

use vstd::prelude::*;

use crate::text::chars_of;
use crate::text::split_chars;
use crate::text::split_seq;
use crate::text::views_of;

verus! {

/// An address family: IPv4 (`A` records) or IPv6 (`AAAA` records).
#[derive(Clone, Copy, Debug, PartialEq, Eq, Structural)]
pub enum IpFamily {
    V4,
    V6,
}

pub open spec fn is_dec_digit(c: char) -> bool {
    '0' as u32 <= c as u32 <= '9' as u32
}

pub open spec fn dec_val(c: char) -> int {
    c as u32 - '0' as u32
}

/// Numeric value of a decimal digit string, most significant digit first.
pub open spec fn dec_value(s: Seq<char>) -> int
    decreases s.len(),
{
    if s.len() == 0 {
        0
    } else {
        dec_value(s.drop_last()) * 10 + dec_val(s.last())
    }
}

/// A dotted-quad octet: one to three decimal digits, no leading zero, value
/// at most 255.
pub open spec fn is_octet_text(s: Seq<char>) -> bool {
    &&& 1 <= s.len() <= 3
    &&& (forall|i: int| 0 <= i < s.len() ==> is_dec_digit(#[trigger] s[i]))
    &&& (s.len() > 1 ==> s[0] != '0')
    &&& dec_value(s) <= 255
}

/// An IPv4 address in dotted-quad notation: four octets separated by dots.
pub open spec fn is_ipv4_text(s: Seq<char>) -> bool {
    let parts = split_seq(s, '.');
    parts.len() == 4 && (forall|i: int| 0 <= i < 4 ==> is_octet_text(#[trigger] parts[i]))
}

pub open spec fn is_hex_digit(c: char) -> bool {
    ||| is_dec_digit(c)
    ||| 'a' as u32 <= c as u32 <= 'f' as u32
    ||| 'A' as u32 <= c as u32 <= 'F' as u32
}

/// A 16-bit group of an IPv6 address: one to four hexadecimal digits.
pub open spec fn is_h16_text(s: Seq<char>) -> bool {
    1 <= s.len() <= 4 && (forall|i: int| 0 <= i < s.len() ==> is_hex_digit(#[trigger] s[i]))
}

/// All parts with index in `[lo, hi)` are 16-bit groups.
pub open spec fn all_h16(parts: Seq<Seq<char>>, lo: int, hi: int) -> bool {
    forall|i: int| lo <= i < hi ==> is_h16_text(#[trigger] parts[i])
}

/// The parts standing left of a `::` elision: either the single empty part
/// that splitting produces when nothing stands there, or 16-bit groups.
pub open spec fn left_groups_ok(q: Seq<Seq<char>>) -> bool {
    ||| (q.len() == 1 && q[0].len() == 0)
    ||| all_h16(q, 0, q.len() as int)
}

/// How many 16-bit groups the parts left of the elision stand for.
pub open spec fn left_group_count(q: Seq<Seq<char>>) -> int {
    if q.len() == 1 && q[0].len() == 0 {
        0
    } else {
        q.len() as int
    }
}

/// The parts standing right of a `::` elision: the single empty part when
/// nothing stands there, 16-bit groups, or such groups followed by an
/// embedded IPv4 tail.
pub open spec fn right_groups_ok(q: Seq<Seq<char>>) -> bool {
    ||| (q.len() == 1 && q[0].len() == 0)
    ||| all_h16(q, 0, q.len() as int)
    ||| (q.len() >= 1 && all_h16(q, 0, q.len() - 1) && is_ipv4_text(q.last()))
}

/// How many 16-bit groups the parts right of the elision stand for; an
/// embedded IPv4 tail counts as two.
pub open spec fn right_group_count(q: Seq<Seq<char>>) -> int {
    if q.len() == 1 && q[0].len() == 0 {
        0
    } else if q.len() >= 1 && is_ipv4_text(q.last()) {
        q.len() + 1int
    } else {
        q.len() as int
    }
}

/// A compressed IPv6 address: one `::` elision, whose split on `:` shows an
/// empty part with well-formed group lists on both sides standing for at
/// most seven groups in all, the elision covering the rest.
pub open spec fn is_ipv6_compressed(parts: Seq<Seq<char>>) -> bool {
    exists|i: int|
        1 <= i <= parts.len() - 2 && (#[trigger] parts[i]).len() == 0 && left_groups_ok(
            parts.take(i),
        ) && right_groups_ok(parts.skip(i + 1)) && left_group_count(parts.take(i))
            + right_group_count(parts.skip(i + 1)) <= 7
}

/// An IPv6 address: eight 16-bit groups, six groups with an embedded IPv4
/// tail, or a compressed form with one `::` elision.
pub open spec fn is_ipv6_text(s: Seq<char>) -> bool {
    let parts = split_seq(s, ':');
    ||| (parts.len() == 8 && all_h16(parts, 0, 8))
    ||| (parts.len() == 7 && all_h16(parts, 0, 6) && is_ipv4_text(parts[6]))
    ||| is_ipv6_compressed(parts)
}

/// Checks that every character of `s` is a decimal digit.
fn all_dec_digits(s: &[char]) -> (r: bool)
    ensures
        r == forall|i: int| 0 <= i < s@.len() ==> is_dec_digit(#[trigger] s@[i]),
{
    let mut i: usize = 0;
    while i < s.len()
        invariant
            i <= s@.len(),
            forall|j: int| 0 <= j < i ==> is_dec_digit(#[trigger] s@[j]),
        decreases s@.len() - i,
    {
        let c = s[i];
        if !(('0' as u32) <= (c as u32) && (c as u32) <= ('9' as u32)) {
            return false;
        }
        i = i + 1;
    }
    true
}

/// Checks one dotted-quad octet.
fn check_octet(s: &[char]) -> (r: bool)
    ensures
        r == is_octet_text(s@),
{
    if s.len() < 1 || s.len() > 3 {
        return false;
    }
    if !all_dec_digits(s) {
        return false;
    }
    if s.len() > 1 && s[0] == '0' {
        return false;
    }
    let mut acc: u32 = 0;
    let mut i: usize = 0;
    while i < s.len()
        invariant
            i <= s@.len() <= 3,
            forall|j: int| 0 <= j < s@.len() ==> is_dec_digit(#[trigger] s@[j]),
            acc == dec_value(s@.take(i as int)),
            acc <= (if i == 0 {
                0int
            } else if i == 1 {
                9int
            } else if i == 2 {
                99int
            } else {
                999int
            }),
        decreases s@.len() - i,
    {
        let c = s[i];
        proof {
            assert(is_dec_digit(s@[i as int]));
            assert(s@.take(i + 1).drop_last() =~= s@.take(i as int));
            assert(s@.take(i + 1).last() == s@[i as int]);
            assert(dec_value(s@.take(i + 1)) == dec_value(s@.take(i as int)) * 10 + dec_val(
                s@[i as int],
            ));
            assert(dec_val(c) == c as u32 - '0' as u32);
        }
        acc = acc * 10 + ((c as u32) - ('0' as u32));
        i = i + 1;
    }
    proof {
        assert(s@.take(i as int) =~= s@);
    }
    acc <= 255
}

/// Checks one 16-bit hexadecimal group.
fn check_h16(s: &[char]) -> (r: bool)
    ensures
        r == is_h16_text(s@),
{
    if s.len() < 1 || s.len() > 4 {
        return false;
    }
    let mut i: usize = 0;
    while i < s.len()
        invariant
            i <= s@.len(),
            forall|j: int| 0 <= j < i ==> is_hex_digit(#[trigger] s@[j]),
        decreases s@.len() - i,
    {
        let c = s[i];
        let u = c as u32;
        let dec = ('0' as u32) <= u && u <= ('9' as u32);
        let low = ('a' as u32) <= u && u <= ('f' as u32);
        let upp = ('A' as u32) <= u && u <= ('F' as u32);
        if !(dec || low || upp) {
            return false;
        }
        i = i + 1;
    }
    true
}

/// Checks an IPv4 dotted quad given as characters.
pub fn check_ipv4_chars(s: &[char]) -> (r: bool)
    ensures
        r == is_ipv4_text(s@),
{
    let parts = split_chars(s, '.');
    if parts.len() != 4 {
        return false;
    }
    let mut i: usize = 0;
    while i < 4
        invariant
            i <= 4,
            parts@.len() == 4,
            views_of(parts@) == split_seq(s@, '.'),
            forall|j: int| 0 <= j < i ==> is_octet_text(#[trigger] views_of(parts@)[j]),
        decreases 4 - i,
    {
        let p = &parts[i];
        if !check_octet(p.as_slice()) {
            proof {
                assert(!is_octet_text(views_of(parts@)[i as int]));
            }
            return false;
        }
        i = i + 1;
    }
    true
}

/// Checks that the parts with index in `[lo, hi)` are all 16-bit groups.
fn all_h16_range(parts: &Vec<Vec<char>>, lo: usize, hi: usize) -> (r: bool)
    requires
        lo <= hi <= parts@.len(),
    ensures
        r == all_h16(views_of(parts@), lo as int, hi as int),
{
    let mut i: usize = lo;
    while i < hi
        invariant
            lo <= i <= hi <= parts@.len(),
            forall|j: int| lo <= j < i ==> is_h16_text(#[trigger] views_of(parts@)[j]),
        decreases hi - i,
    {
        let p = &parts[i];
        if !check_h16(p.as_slice()) {
            proof {
                assert(!is_h16_text(views_of(parts@)[i as int]));
            }
            return false;
        }
        i = i + 1;
    }
    true
}

proof fn lemma_all_h16_take(v: Seq<Seq<char>>, i: int)
    requires
        0 <= i <= v.len(),
    ensures
        all_h16(v.take(i), 0, i) == all_h16(v, 0, i),
{
    assert(forall|j: int| 0 <= j < i ==> #[trigger] v.take(i)[j] == v[j]);
    if all_h16(v.take(i), 0, i) {
        assert forall|j: int| 0 <= j < i implies is_h16_text(#[trigger] v[j]) by {
            assert(is_h16_text(v.take(i)[j]));
        }
    }
    if all_h16(v, 0, i) {
        assert forall|j: int| 0 <= j < i implies is_h16_text(#[trigger] v.take(i)[j]) by {
            assert(is_h16_text(v[j]));
        }
    }
}

proof fn lemma_all_h16_skip(v: Seq<Seq<char>>, i: int, lo: int, hi: int)
    requires
        0 <= i <= v.len(),
        0 <= lo <= hi <= v.len() - i,
    ensures
        all_h16(v.skip(i), lo, hi) == all_h16(v, i + lo, i + hi),
{
    assert(forall|j: int| 0 <= j < v.len() - i ==> #[trigger] v.skip(i)[j] == v[i + j]);
    if all_h16(v.skip(i), lo, hi) {
        assert forall|j: int| i + lo <= j < i + hi implies is_h16_text(#[trigger] v[j]) by {
            assert(is_h16_text(v.skip(i)[j - i]));
        }
    }
    if all_h16(v, i + lo, i + hi) {
        assert forall|j: int| lo <= j < hi implies is_h16_text(#[trigger] v.skip(i)[j]) by {
            assert(is_h16_text(v[i + j]));
        }
    }
}

/// Checks the left side of a candidate `::` elision, the parts with index
/// below `i`.
fn left_side_ok(parts: &Vec<Vec<char>>, i: usize) -> (r: bool)
    requires
        1 <= i <= parts@.len(),
    ensures
        r == left_groups_ok(views_of(parts@).take(i as int)),
{
    let ghost q = views_of(parts@).take(i as int);
    if i == 1 && parts[0].len() == 0 {
        return true;
    }
    let r = all_h16_range(parts, 0, i);
    proof {
        lemma_all_h16_take(views_of(parts@), i as int);
        assert(!(q.len() == 1 && q[0].len() == 0));
    }
    r
}

/// Checks the right side of a candidate `::` elision, the parts with index
/// above `i`.
fn right_side_ok(parts: &Vec<Vec<char>>, i: usize) -> (r: bool)
    requires
        i + 2 <= parts@.len(),
    ensures
        r == right_groups_ok(views_of(parts@).skip(i + 1)),
{
    let ghost q = views_of(parts@).skip(i + 1);
    let n = parts.len();
    proof {
        assert(q.len() == n - i - 1);
        assert(forall|j: int|
            0 <= j < q.len() ==> #[trigger] q[j] == views_of(parts@)[i + 1 + j]);
    }
    if i + 2 == n && parts[i + 1].len() == 0 {
        return true;
    }
    let all = all_h16_range(parts, i + 1, n);
    proof {
        lemma_all_h16_skip(views_of(parts@), i + 1, 0, q.len() as int);
    }
    if all {
        return true;
    }
    let last = &parts[n - 1];
    let r = all_h16_range(parts, i + 1, n - 1) && check_ipv4_chars(last.as_slice());
    proof {
        lemma_all_h16_skip(views_of(parts@), i + 1, 0, q.len() - 1);
        assert(q.last() == views_of(parts@)[n - 1]);
        assert(!(q.len() == 1 && q[0].len() == 0));
    }
    r
}

/// How many groups the left side of the elision stands for.
fn left_count(parts: &Vec<Vec<char>>, i: usize) -> (c: usize)
    requires
        1 <= i <= parts@.len(),
    ensures
        c == left_group_count(views_of(parts@).take(i as int)),
{
    if i == 1 && parts[0].len() == 0 {
        0
    } else {
        i
    }
}

/// How many groups the right side of the elision stands for.
fn right_count(parts: &Vec<Vec<char>>, i: usize) -> (c: usize)
    requires
        i + 2 <= parts@.len(),
    ensures
        c == right_group_count(views_of(parts@).skip(i + 1)),
{
    let ghost q = views_of(parts@).skip(i + 1);
    let n = parts.len();
    proof {
        assert(q.len() == n - i - 1);
        assert(q.last() == views_of(parts@)[n - 1]);
    }
    if i + 2 == n && parts[i + 1].len() == 0 {
        return 0;
    }
    let last = &parts[n - 1];
    if check_ipv4_chars(last.as_slice()) {
        n - i
    } else {
        n - i - 1
    }
}

/// Checks an IPv6 address given as characters.
pub fn check_ipv6_chars(s: &[char]) -> (r: bool)
    ensures
        r == is_ipv6_text(s@),
{
    let parts = split_chars(s, ':');
    let ghost v = views_of(parts@);
    let n = parts.len();
    if n == 8 && all_h16_range(&parts, 0, 8) {
        return true;
    }
    if n == 7 && all_h16_range(&parts, 0, 6) {
        let last = &parts[6];
        if check_ipv4_chars(last.as_slice()) {
            return true;
        }
    }
    proof {
        assert(!(v.len() == 8 && all_h16(v, 0, 8)));
        assert(!(v.len() == 7 && all_h16(v, 0, 6) && is_ipv4_text(v[6])));
    }
    if n < 3 {
        proof {
            assert(!is_ipv6_compressed(v));
        }
        return false;
    }
    let mut i: usize = 1;
    while i <= n - 2
        invariant
            1 <= i <= n - 1,
            3 <= n == parts@.len(),
            v == views_of(parts@),
            v == split_seq(s@, ':'),
            !(v.len() == 8 && all_h16(v, 0, 8)),
            !(v.len() == 7 && all_h16(v, 0, 6) && is_ipv4_text(v[6])),
            forall|k: int|
                1 <= k < i ==> !((#[trigger] v[k]).len() == 0 && left_groups_ok(v.take(k))
                    && right_groups_ok(v.skip(k + 1)) && left_group_count(v.take(k))
                    + right_group_count(v.skip(k + 1)) <= 7),
        decreases n - i,
    {
        if parts[i].len() == 0 {
            let lok = left_side_ok(&parts, i);
            let rok = right_side_ok(&parts, i);
            if lok && rok {
                let lc = left_count(&parts, i);
                let rc = right_count(&parts, i);
                if lc + rc <= 7 {
                    proof {
                        let wi = i as int;
                        assert(1 <= wi <= v.len() - 2);
                        assert(v[wi].len() == 0);
                        assert(left_groups_ok(v.take(wi)));
                        assert(right_groups_ok(v.skip(wi + 1)));
                        assert(left_group_count(v.take(wi)) + right_group_count(
                            v.skip(wi + 1),
                        ) <= 7);
                        assert(is_ipv6_compressed(v));
                        assert(v == split_seq(s@, ':'));
                        assert(is_ipv6_compressed(split_seq(s@, ':')));
                        assert(is_ipv6_text(s@));
                    }
                    return true;
                }
            }
        }
        i = i + 1;
    }
    proof {
        assert(!is_ipv6_compressed(v));
    }
    false
}

/// Classifies a string as IPv4, IPv6 (when it is not IPv4), or neither.
pub fn classify_ip(s: &str) -> (r: Option<IpFamily>)
    ensures
        is_ipv4_text(s@) ==> r == Some(IpFamily::V4),
        !is_ipv4_text(s@) && is_ipv6_text(s@) ==> r == Some(IpFamily::V6),
        !is_ipv4_text(s@) && !is_ipv6_text(s@) ==> r is None,
{
    let cs = chars_of(s);
    if check_ipv4_chars(cs.as_slice()) {
        Some(IpFamily::V4)
    } else if check_ipv6_chars(cs.as_slice()) {
        Some(IpFamily::V6)
    } else {
        None
    }
}

} // verus!
