//! Character and string helpers shared across the crate.
//!
//! Whitespace here means ASCII whitespace; lowercasing affects ASCII
//! letters only, matching how hostnames are canonicalised.

use vstd::prelude::*;

verus! {

/// ASCII whitespace, the set trimmed from hostnames.
pub open spec fn is_space_char(c: char) -> bool {
    c == ' ' || c == '\t' || c == '\n' || c == '\r' || c == '\u{c}'
}

/// ASCII lowercase mapping; other characters are unchanged.
pub open spec fn ascii_lower_char(c: char) -> char {
    if 'A' <= c && c <= 'Z' {
        ((c as u8) + 32) as char
    } else {
        c
    }
}

/// ASCII lowercase applied to every character.
pub open spec fn lower_seq(s: Seq<char>) -> Seq<char> {
    Seq::new(s.len(), |i: int| ascii_lower_char(s[i]))
}

/// The sequence with leading ASCII whitespace removed.
pub open spec fn drop_leading_ws(s: Seq<char>) -> Seq<char>
    decreases s.len(),
{
    if s.len() > 0 && is_space_char(s[0]) {
        drop_leading_ws(s.drop_first())
    } else {
        s
    }
}

/// The sequence with trailing ASCII whitespace removed.
pub open spec fn drop_trailing_ws(s: Seq<char>) -> Seq<char>
    decreases s.len(),
{
    if s.len() > 0 && is_space_char(s.last()) {
        drop_trailing_ws(s.drop_last())
    } else {
        s
    }
}

/// The sequence with trailing `'.'` characters removed.
pub open spec fn drop_trailing_dots(s: Seq<char>) -> Seq<char>
    decreases s.len(),
{
    if s.len() > 0 && s.last() == '.' {
        drop_trailing_dots(s.drop_last())
    } else {
        s
    }
}

proof fn lemma_drop_leading_ws_at(s: Seq<char>, i: int)
    requires
        0 <= i <= s.len(),
        forall|k: int| 0 <= k < i ==> is_space_char(s[k]),
        i == s.len() || !is_space_char(s[i]),
    ensures
        drop_leading_ws(s) =~= s.subrange(i, s.len() as int),
    decreases i,
{
    if i == 0 {
        assert(drop_leading_ws(s) =~= s.subrange(0, s.len() as int));
    } else {
        assert(is_space_char(s[0]));
        let t = s.drop_first();
        assert(forall|k: int| 0 <= k < i - 1 ==> is_space_char(t[k]));
        lemma_drop_leading_ws_at(t, i - 1);
        assert(t.subrange(i - 1, t.len() as int) =~= s.subrange(i, s.len() as int));
    }
}

proof fn lemma_drop_trailing_ws_at(s: Seq<char>, j: int)
    requires
        0 <= j <= s.len(),
        forall|k: int| j <= k < s.len() ==> is_space_char(s[k]),
        j == 0 || !is_space_char(s[j - 1]),
    ensures
        drop_trailing_ws(s) =~= s.subrange(0, j),
    decreases s.len() - j,
{
    if j == s.len() {
        assert(drop_trailing_ws(s) =~= s.subrange(0, j));
    } else {
        assert(is_space_char(s.last()));
        let t = s.drop_last();
        lemma_drop_trailing_ws_at(t, j);
    }
}

proof fn lemma_drop_trailing_dots_at(s: Seq<char>, j: int)
    requires
        0 <= j <= s.len(),
        forall|k: int| j <= k < s.len() ==> s[k] == '.',
        j == 0 || s[j - 1] != '.',
    ensures
        drop_trailing_dots(s) =~= s.subrange(0, j),
    decreases s.len() - j,
{
    if j == s.len() {
        assert(drop_trailing_dots(s) =~= s.subrange(0, j));
    } else {
        assert(s.last() == '.');
        let t = s.drop_last();
        lemma_drop_trailing_dots_at(t, j);
    }
}

/// Relies on `String::push`: appends exactly one character.
#[verifier::external_body]
pub(crate) fn push_char(s: &mut String, c: char)
    ensures
        final(s)@ == old(s)@.push(c),
{
    s.push(c);
}

/// Character equality of two string slices.
pub fn str_eq(a: &str, b: &str) -> (r: bool)
    ensures
        r == (a@ == b@),
{
    let alen = a.unicode_len();
    let blen = b.unicode_len();
    if alen != blen {
        assert(a@.len() != b@.len());
        return false;
    }
    let mut i: usize = 0;
    while i < alen
        invariant
            0 <= i <= alen,
            alen == a@.len(),
            alen == b@.len(),
            forall|k: int| 0 <= k < i ==> a@[k] == b@[k],
        decreases alen - i,
    {
        if a.get_char(i) != b.get_char(i) {
            assert(a@[i as int] != b@[i as int]);
            assert(a@ != b@);
            return false;
        }
        i += 1;
    }
    assert(a@ =~= b@);
    true
}

/// Whether a character is ASCII whitespace.
pub fn is_space(c: char) -> (r: bool)
    ensures
        r == is_space_char(c),
{
    c == ' ' || c == '\t' || c == '\n' || c == '\r' || c == '\u{c}'
}

/// ASCII lowercase of one character.
pub fn lower_char(c: char) -> (r: char)
    ensures
        r == ascii_lower_char(c),
{
    if 'A' <= c && c <= 'Z' {
        ((c as u8) + 32) as char
    } else {
        c
    }
}

/// ASCII lowercase of a whole string.
pub fn to_lower(s: &str) -> (r: String)
    ensures
        r@ == lower_seq(s@),
{
    let n = s.unicode_len();
    let mut out = String::new();
    let mut i: usize = 0;
    while i < n
        invariant
            0 <= i <= n,
            n == s@.len(),
            out@ =~= lower_seq(s@.subrange(0, i as int)),
        decreases n - i,
    {
        let c = lower_char(s.get_char(i));
        push_char(&mut out, c);
        assert(out@ =~= lower_seq(s@.subrange(0, i + 1 as int)));
        i += 1;
    }
    assert(s@.subrange(0, n as int) =~= s@);
    out
}

/// The trimmed slice of `s`: ASCII whitespace removed from both ends.
pub fn trim_spaces<'a>(s: &'a str) -> (r: &'a str)
    ensures
        r@ == drop_trailing_ws(drop_leading_ws(s@)),
{
    let n = s.unicode_len();
    let mut start: usize = 0;
    while start < n && is_space(s.get_char(start))
        invariant
            0 <= start <= n,
            n == s@.len(),
            forall|k: int| 0 <= k < start ==> is_space_char(s@[k]),
        decreases n - start,
    {
        start += 1;
    }
    proof {
        lemma_drop_leading_ws_at(s@, start as int);
    }
    let ghost mid = s@.subrange(start as int, n as int);
    let mut end: usize = n;
    while end > start && is_space(s.get_char(end - 1))
        invariant
            start <= end <= n,
            n == s@.len(),
            forall|k: int| end <= k < n ==> is_space_char(s@[k]),
        decreases end,
    {
        end -= 1;
    }
    proof {
        assert(forall|k: int| end - start <= k < mid.len() ==> is_space_char(mid[k]));
        if end > start {
            assert(mid[end - start - 1] == s@[end - 1]);
        }
        lemma_drop_trailing_ws_at(mid, end - start);
        assert(mid.subrange(0, end - start) =~= s@.subrange(start as int, end as int));
    }
    s.substring_char(start, end)
}

/// The slice of `s` with trailing `'.'` characters removed.
pub fn trim_trailing_dots<'a>(s: &'a str) -> (r: &'a str)
    ensures
        r@ == drop_trailing_dots(s@),
{
    let n = s.unicode_len();
    let mut end: usize = n;
    while end > 0 && s.get_char(end - 1) == '.'
        invariant
            0 <= end <= n,
            n == s@.len(),
            forall|k: int| end <= k < n ==> s@[k] == '.',
        decreases end,
    {
        end -= 1;
    }
    proof {
        lemma_drop_trailing_dots_at(s@, end as int);
    }
    s.substring_char(0, end)
}


/// Whether a character is a decimal digit.
pub open spec fn dec_digit(c: char) -> bool {
    '0' <= c && c <= '9'
}

/// Whether every character is a decimal digit.
pub open spec fn all_dec_digits(s: Seq<char>) -> bool {
    forall|i: int| 0 <= i < s.len() ==> dec_digit(s[i])
}

/// The numeric value of a decimal digit string (0 when empty).
pub open spec fn dec_value(s: Seq<char>) -> int
    decreases s.len(),
{
    if s.len() == 0 {
        0
    } else {
        dec_value(s.drop_last()) * 10 + (s.last() as int - '0' as int)
    }
}

/// The decimal rendering of a natural number, most significant digit first.
pub open spec fn dec_of(n: nat) -> Seq<char>
    decreases n,
{
    if n < 10 {
        seq![(('0' as u8) + n as u8) as char]
    } else {
        dec_of(n / 10).push((('0' as u8) + (n % 10) as u8) as char)
    }
}

/// What `str::parse::<u64>` yields: an optional leading `'+'`, then one or
/// more decimal digits whose value fits.
pub open spec fn u64_dec_of(s: Seq<char>) -> Option<u64> {
    let digits = if s.len() > 0 && s[0] == '+' {
        s.drop_first()
    } else {
        s
    };
    if digits.len() > 0 && all_dec_digits(digits) && dec_value(digits) <= u64::MAX {
        Some(dec_value(digits) as u64)
    } else {
        None
    }
}

proof fn lemma_dec_value_nonneg(s: Seq<char>)
    requires
        all_dec_digits(s),
    ensures
        dec_value(s) >= 0,
    decreases s.len(),
{
    if s.len() > 0 {
        let t = s.drop_last();
        assert(all_dec_digits(t));
        lemma_dec_value_nonneg(t);
    }
}

proof fn lemma_dec_value_prefix_le(s: Seq<char>, i: int)
    requires
        all_dec_digits(s),
        0 <= i <= s.len(),
    ensures
        dec_value(s.subrange(0, i)) <= dec_value(s),
    decreases s.len() - i,
{
    if i == s.len() {
        assert(s.subrange(0, i) =~= s);
    } else {
        let next = s.subrange(0, i + 1);
        assert(all_dec_digits(next));
        assert(next.drop_last() =~= s.subrange(0, i));
        lemma_dec_value_nonneg(s.subrange(0, i));
        assert(dec_value(next) == dec_value(s.subrange(0, i)) * 10 + (next.last() as int
            - '0' as int));
        assert(dec_value(s.subrange(0, i)) <= dec_value(next));
        lemma_dec_value_prefix_le(s, i + 1);
    }
}

/// The decimal rendering is digits only and reads back as the number.
pub proof fn lemma_dec_of_value(n: nat)
    ensures
        dec_of(n).len() > 0,
        all_dec_digits(dec_of(n)),
        dec_value(dec_of(n)) == n,
    decreases n,
{
    if n < 10 {
        let d = (('0' as u8) + n as u8) as char;
        assert(d as int == ('0' as u8) + n);
        assert(dec_of(n) =~= seq![d]);
        assert(seq![d].drop_last() =~= Seq::<char>::empty());
        assert(dec_value(Seq::<char>::empty()) == 0);
        assert(dec_value(seq![d]) == dec_value(seq![d].drop_last()) * 10 + (seq![d].last() as int
            - '0' as int));
        assert(dec_value(dec_of(n)) == d as int - '0' as int);
    } else {
        lemma_dec_of_value(n / 10);
        let prefix = dec_of(n / 10);
        let d = (('0' as u8) + (n % 10) as u8) as char;
        assert(d as int == ('0' as u8) + n % 10);
        assert(dec_of(n) == prefix.push(d));
        assert(dec_of(n).drop_last() =~= prefix);
        assert(dec_value(dec_of(n)) == dec_value(prefix) * 10 + (d as int - '0' as int));
        assert(forall|i: int|
            0 <= i < dec_of(n).len() ==> dec_digit(#[trigger] dec_of(n)[i]));
    }
}

/// A rendered decimal parses back to the same number.
pub proof fn lemma_u64_dec_round_trip(n: u64)
    ensures
        u64_dec_of(dec_of(n as nat)) == Some(n),
{
    lemma_dec_of_value(n as nat);
    let s = dec_of(n as nat);
    assert(dec_digit(s[0]));
    assert(s[0] != '+');
}

/// Render a natural number in decimal.
pub fn dec_str(n: u64) -> (r: String)
    ensures
        r@ == dec_of(n as nat),
    decreases n,
{
    if n < 10 {
        let mut s = String::new();
        push_char(&mut s, (('0' as u8) + n as u8) as char);
        assert(s@ =~= dec_of(n as nat));
        s
    } else {
        let mut s = dec_str(n / 10);
        push_char(&mut s, (('0' as u8) + (n % 10) as u8) as char);
        assert(s@ =~= dec_of(n as nat));
        s
    }
}

/// Parse a string as `u64`, exactly as std does: an optional leading
/// `'+'`, then decimal digits whose value fits.
pub fn parse_u64_dec(s: &str) -> (r: Option<u64>)
    ensures
        r == u64_dec_of(s@),
{
    let n = s.unicode_len();
    let mut start: usize = 0;
    if n > 0 && s.get_char(0) == '+' {
        start = 1;
    }
    let ghost digits = if s@.len() > 0 && s@[0] == '+' {
        s@.drop_first()
    } else {
        s@
    };
    proof {
        assert(digits =~= s@.subrange(start as int, n as int));
    }
    if start == n {
        return None;
    }
    let mut acc: u64 = 0;
    let mut i: usize = start;
    proof {
        assert(digits.subrange(0, 0) =~= Seq::<char>::empty());
    }
    while i < n
        invariant
            start <= i <= n,
            n == s@.len(),
            start < n,
            digits == (if s@.len() > 0 && s@[0] == '+' {
                s@.drop_first()
            } else {
                s@
            }),
            digits =~= s@.subrange(start as int, n as int),
            all_dec_digits(digits.subrange(0, i - start)),
            acc == dec_value(digits.subrange(0, i - start)),
        decreases n - i,
    {
        let c = s.get_char(i);
        if !('0' <= c && c <= '9') {
            assert(digits[i - start] == c);
            assert(!all_dec_digits(digits));
            return None;
        }
        let d = (c as u8) - ('0' as u8);
        let ghost prefix = digits.subrange(0, i - start);
        let ghost next = digits.subrange(0, i - start + 1);
        proof {
            assert(next.drop_last() =~= prefix);
            assert(next.last() == digits[i - start]);
            assert(all_dec_digits(next));
        }
        let scaled = match acc.checked_mul(10) {
            Some(v) => v,
            None => {
                proof {
                    assert(dec_value(next) > u64::MAX);
                    if all_dec_digits(digits) {
                        lemma_dec_value_prefix_le(digits, i - start + 1);
                    }
                }
                return None;
            },
        };
        let bumped = match scaled.checked_add(d as u64) {
            Some(v) => v,
            None => {
                proof {
                    assert(dec_value(next) > u64::MAX);
                    if all_dec_digits(digits) {
                        lemma_dec_value_prefix_le(digits, i - start + 1);
                    }
                }
                return None;
            },
        };
        acc = bumped;
        i += 1;
        proof {
            assert(digits.subrange(0, i - start) =~= next);
        }
    }
    proof {
        assert(digits.subrange(0, n - start) =~= digits);
        lemma_dec_value_nonneg(digits);
    }
    Some(acc)
}

} // verus!
