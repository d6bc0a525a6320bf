//! Verified text utilities the backends share: equality and lexicographic
//! order on strings, substring search, and decimal parsing with surrounding
//! whitespace, as the kernel's sysfs files report numbers.

use vstd::prelude::*;

verus! {

/// Character-wise equality of two string slices.
pub fn str_eq(a: &str, b: &str) -> (r: bool)
    ensures
        r == (a@ == b@),
{
    let alen = a.unicode_len();
    let blen = b.unicode_len();
    if alen != blen {
        assert(a@ != b@);
        return false;
    }
    let mut i: usize = 0;
    while i < alen
        invariant
            alen == a@.len(),
            blen == b@.len(),
            alen == blen,
            i <= alen,
            forall|k: int| 0 <= k < i ==> a@[k] == b@[k],
        decreases alen - i,
    {
        if a.get_char(i) != b.get_char(i) {
            assert(a@ != b@);
            return false;
        }
        i = i + 1;
    }
    assert(a@ =~= b@);
    true
}

/// Strict lexicographic order on character sequences, by code point.
pub open spec fn lex_lt(a: Seq<char>, b: Seq<char>) -> bool
    decreases a.len(),
{
    if b.len() == 0 {
        false
    } else if a.len() == 0 {
        true
    } else if a[0] < b[0] {
        true
    } else if b[0] < a[0] {
        false
    } else {
        lex_lt(a.skip(1), b.skip(1))
    }
}

fn lex_lt_from(a: &str, b: &str, i: usize) -> (r: bool)
    requires
        i <= a@.len(),
        i <= b@.len(),
    ensures
        r == lex_lt(a@.skip(i as int), b@.skip(i as int)),
    decreases a@.len() - i,
{
    if i == b.unicode_len() {
        false
    } else if i == a.unicode_len() {
        true
    } else {
        let ca = a.get_char(i);
        let cb = b.get_char(i);
        assert(a@.skip(i as int)[0] == a@[i as int]);
        assert(b@.skip(i as int)[0] == b@[i as int]);
        if ca < cb {
            true
        } else if cb < ca {
            false
        } else {
            let r = lex_lt_from(a, b, i + 1);
            assert(a@.skip(i as int).skip(1) =~= a@.skip(i as int + 1));
            assert(b@.skip(i as int).skip(1) =~= b@.skip(i as int + 1));
            r
        }
    }
}

/// Strict lexicographic comparison of two string slices.
pub fn str_lex_lt(a: &str, b: &str) -> (r: bool)
    ensures
        r == lex_lt(a@, b@),
{
    let r = lex_lt_from(a, b, 0);
    assert(a@.skip(0) =~= a@);
    assert(b@.skip(0) =~= b@);
    r
}

/// The needle occurs contiguously somewhere in the haystack.
pub open spec fn contains_seq(h: Seq<char>, n: Seq<char>) -> bool {
    exists|i: int| 0 <= i && i + n.len() <= h.len() && #[trigger] h.subrange(i, i + n.len()) == n
}

fn matches_at(h: &str, n: &str, i: usize) -> (r: bool)
    requires
        i + n@.len() <= h@.len(),
    ensures
        r == (h@.subrange(i as int, i as int + n@.len() as int) == n@),
{
    let hlen = h.unicode_len();
    let nlen = n.unicode_len();
    let mut j: usize = 0;
    while j < nlen
        invariant
            hlen == h@.len(),
            nlen == n@.len(),
            i + nlen <= h@.len(),
            j <= nlen,
            forall|t: int| 0 <= t < j ==> h@[i + t] == n@[t],
        decreases nlen - j,
    {
        if h.get_char(i + j) != n.get_char(j) {
            assert(h@.subrange(i as int, i as int + n@.len() as int)[j as int] != n@[j as int]);
            return false;
        }
        j = j + 1;
    }
    assert(h@.subrange(i as int, i as int + n@.len() as int) =~= n@);
    true
}

/// Substring search by scanning every start position.
pub fn contains_substr(h: &str, n: &str) -> (r: bool)
    ensures
        r == contains_seq(h@, n@),
{
    let hlen = h.unicode_len();
    let nlen = n.unicode_len();
    if nlen > hlen {
        return false;
    }
    if nlen == 0 {
        assert(contains_seq(h@, n@)) by {
            assert(h@.subrange(0, 0 + n@.len() as int) =~= n@);
        }
        return true;
    }
    let mut i: usize = 0;
    while i <= hlen - nlen
        invariant
            hlen == h@.len(),
            nlen == n@.len(),
            0 < nlen <= hlen,
            i <= hlen - nlen + 1,
            forall|k: int| 0 <= k < i ==> #[trigger] h@.subrange(k, k + n@.len() as int) != n@,
        decreases hlen - nlen + 1 - i,
    {
        if matches_at(h, n, i) {
            return true;
        }
        i = i + 1;
    }
    false
}

/// A decimal digit's place in the character range.
pub open spec fn is_digit_char(c: char) -> bool {
    '0' <= c && c <= '9'
}

pub open spec fn digit_value(c: char) -> nat {
    (c as nat - '0' as nat) as nat
}

pub open spec fn all_digits(s: Seq<char>) -> bool {
    forall|i: int| 0 <= i < s.len() ==> is_digit_char(s[i])
}

/// The number a digit sequence denotes, most significant digit first.
pub open spec fn digits_value(s: Seq<char>) -> nat
    decreases s.len(),
{
    if s.len() == 0 {
        0
    } else {
        digits_value(s.drop_last()) * 10 + digit_value(s.last())
    }
}

/// The whitespace `str::trim` strips from sysfs values.
pub open spec fn is_ws(c: char) -> bool {
    c == ' ' || c == '\t' || c == '\n' || c == '\r'
}

pub open spec fn drop_leading_ws(s: Seq<char>) -> Seq<char>
    decreases s.len(),
{
    if s.len() > 0 && is_ws(s[0]) {
        drop_leading_ws(s.skip(1))
    } else {
        s
    }
}

pub open spec fn drop_trailing_ws(s: Seq<char>) -> Seq<char>
    decreases s.len(),
{
    if s.len() > 0 && is_ws(s.last()) {
        drop_trailing_ws(s.drop_last())
    } else {
        s
    }
}

pub open spec fn trim_ws(s: Seq<char>) -> Seq<char> {
    drop_trailing_ws(drop_leading_ws(s))
}

/// One leading '+' before the digits is accepted, as `str::parse` accepts
/// it.
pub open spec fn strip_plus(t: Seq<char>) -> Seq<char> {
    if t.len() > 0 && t[0] == '+' {
        t.skip(1)
    } else {
        t
    }
}

/// What parsing a sysfs-reported number comes to: trim the surrounding
/// whitespace, allow one leading '+', then read it as decimal; anything
/// else, 0.
pub open spec fn parse_u32_spec(s: Seq<char>) -> u32 {
    let t = strip_plus(trim_ws(s));
    if t.len() > 0 && all_digits(t) && digits_value(t) <= u32::MAX {
        digits_value(t) as u32
    } else {
        0
    }
}

/// A longer run of digits never denotes a smaller number.
proof fn lemma_digits_value_prefix_le(s: Seq<char>, i: int)
    requires
        0 <= i <= s.len(),
    ensures
        digits_value(s.subrange(0, i)) <= digits_value(s),
    decreases s.len() - i,
{
    if i == s.len() {
        assert(s.subrange(0, i) =~= s);
    } else {
        lemma_digits_value_prefix_le(s, i + 1);
        let p = s.subrange(0, i + 1);
        assert(p.drop_last() =~= s.subrange(0, i));
        assert(digits_value(s.subrange(0, i)) <= digits_value(p));
    }
}

fn first_non_ws(s: &str) -> (r: usize)
    ensures
        r <= s@.len(),
        forall|k: int| 0 <= k < r ==> is_ws(s@[k]),
        r < s@.len() ==> !is_ws(s@[r as int]),
        drop_leading_ws(s@) =~= s@.skip(r as int),
{
    let len = s.unicode_len();
    proof {
        assert(s@.skip(0) =~= s@);
    }
    let mut i: usize = 0;
    while i < len
        invariant
            len == s@.len(),
            i <= len,
            forall|k: int| 0 <= k < i ==> is_ws(s@[k]),
            drop_leading_ws(s@) =~= drop_leading_ws(s@.skip(i as int)),
        decreases len - i,
    {
        if !is_ws_char(s.get_char(i)) {
            return i;
        }
        assert(s@.skip(i as int)[0] == s@[i as int]);
        assert(s@.skip(i as int).skip(1) =~= s@.skip(i as int + 1));
        i = i + 1;
    }
    assert(s@.skip(i as int) =~= Seq::<char>::empty());
    i
}

fn last_non_ws_end(s: &str, start: usize) -> (r: usize)
    requires
        start <= s@.len(),
        forall|k: int| 0 <= k < start ==> is_ws(s@[k]),
        start < s@.len() ==> !is_ws(s@[start as int]),
    ensures
        start <= r <= s@.len(),
        drop_trailing_ws(s@.skip(start as int)) =~= s@.subrange(start as int, r as int),
        r > start ==> !is_ws(s@[r as int - 1]),
{
    let len = s.unicode_len();
    assert(s@.skip(start as int) =~= s@.subrange(start as int, len as int));
    let mut j: usize = len;
    while j > start
        invariant
            len == s@.len(),
            start <= j <= len,
            forall|k: int| j <= k < len ==> is_ws(s@[k]),
            drop_trailing_ws(s@.skip(start as int)) =~= drop_trailing_ws(
                s@.subrange(start as int, j as int),
            ),
        decreases j,
    {
        if !is_ws_char(s.get_char(j - 1)) {
            assert(drop_trailing_ws(s@.subrange(start as int, j as int)) =~= s@.subrange(
                start as int,
                j as int,
            ));
            return j;
        }
        assert(s@.subrange(start as int, j as int).last() == s@[j as int - 1]);
        assert(s@.subrange(start as int, j as int).drop_last() =~= s@.subrange(
            start as int,
            j as int - 1,
        ));
        j = j - 1;
    }
    assert(s@.subrange(start as int, j as int) =~= Seq::<char>::empty());
    j
}

fn is_ws_char(c: char) -> (r: bool)
    ensures
        r == is_ws(c),
{
    c == ' ' || c == '\t' || c == '\n' || c == '\r'
}

/// Parse a whitespace-surrounded decimal, as sysfs reports link widths;
/// anything unparsable, too large included, resolves to 0.
pub fn parse_u32_trimmed(s: &str) -> (r: u32)
    ensures
        r == parse_u32_spec(s@),
{
    let start = first_non_ws(s);
    let end = last_non_ws_end(s, start);
    let ghost t0 = trim_ws(s@);
    assert(t0 =~= s@.subrange(start as int, end as int));
    let mut dstart = start;
    if start < end && s.get_char(start) == '+' {
        dstart = start + 1;
    }
    let ghost t = strip_plus(t0);
    assert(t =~= s@.subrange(dstart as int, end as int)) by {
        if start < end && s@[start as int] == '+' {
            assert(t0[0] == s@[start as int]);
            assert(t0.skip(1) =~= s@.subrange(start as int + 1, end as int));
        }
    }
    if dstart == end {
        return 0;
    }
    let mut acc: u64 = 0;
    let mut j: usize = dstart;
    while j < end
        invariant
            dstart <= j <= end <= s@.len(),
            t == strip_plus(trim_ws(s@)),
            t =~= s@.subrange(dstart as int, end as int),
            all_digits(t.subrange(0, j - dstart)),
            acc == digits_value(t.subrange(0, j - dstart)),
            acc <= u32::MAX,
        decreases end - j,
    {
        let c = s.get_char(j);
        assert(t[j - dstart] == s@[j as int]);
        if c < '0' || c > '9' {
            assert(!is_digit_char(t[j - dstart]));
            assert(!all_digits(t));
            return 0;
        }
        let d: u32 = (c as u32) - 48;
        assert(d == digit_value(c));
        let ghost tp = t.subrange(0, j - dstart + 1);
        assert(tp.drop_last() =~= t.subrange(0, j - dstart));
        assert(tp.last() == t[j - dstart]);
        acc = acc * 10 + d as u64;
        assert(acc == digits_value(tp));
        if acc > u32::MAX as u64 {
            proof {
                lemma_digits_value_prefix_le(t, j - dstart + 1);
            }
            assert(digits_value(t) > u32::MAX);
            return 0;
        }
        j = j + 1;
    }
    assert(t.subrange(0, end - dstart) =~= t);
    acc as u32
}

} // verus!
