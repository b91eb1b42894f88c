//! Parsing the per-axis size policy from its configuration string.
//!
//! A policy string is trimmed, then matched against the named variants
//! (`screen`, `fit`) — case-insensitively when asked — and otherwise read as
//! an unsigned pixel count: an optional leading `+`, one or more decimal
//! digits, and a value that fits in 32 bits. Anything else is rejected.

use vstd::prelude::*;
use vstd::string::StrSliceExecFns;

use crate::geometry::Size;

verus! {

/// ASCII whitespace, as stripped from either end of a policy string.
pub open spec fn is_space_char(c: char) -> bool {
    c == ' ' || c == '\t' || c == '\n' || c == '\r' || c == '\u{b}' || c == '\u{c}'
}

/// The sequence with its leading whitespace removed.
pub open spec fn trim_front(s: Seq<char>) -> Seq<char>
    decreases s.len(),
{
    if s.len() > 0 && is_space_char(s[0]) {
        trim_front(s.subrange(1, s.len() as int))
    } else {
        s
    }
}

/// The sequence with its trailing whitespace removed.
pub open spec fn trim_back(s: Seq<char>) -> Seq<char>
    decreases s.len(),
{
    if s.len() > 0 && is_space_char(s.last()) {
        trim_back(s.drop_last())
    } else {
        s
    }
}

/// The sequence with whitespace removed from both ends.
pub open spec fn trimmed(s: Seq<char>) -> Seq<char> {
    trim_back(trim_front(s))
}

proof fn lemma_trim_front_subrange(s: Seq<char>, lo: int)
    requires
        0 <= lo <= s.len(),
        forall|j: int| 0 <= j < lo ==> is_space_char(s[j]),
        lo == s.len() || !is_space_char(s[lo]),
    ensures
        trim_front(s) == s.subrange(lo, s.len() as int),
    decreases lo,
{
    if lo == 0 {
        assert(s.subrange(0, s.len() as int) =~= s);
    } else {
        let rest = s.subrange(1, s.len() as int);
        lemma_trim_front_subrange(rest, lo - 1);
        assert(rest.subrange(lo - 1, rest.len() as int) =~= s.subrange(lo, s.len() as int));
    }
}

proof fn lemma_trim_back_subrange(s: Seq<char>, hi: int)
    requires
        0 <= hi <= s.len(),
        forall|j: int| hi <= j < s.len() ==> is_space_char(s[j]),
        hi == 0 || !is_space_char(s[hi - 1]),
    ensures
        trim_back(s) == s.subrange(0, hi),
    decreases s.len() - hi,
{
    if hi == s.len() {
        assert(s.subrange(0, s.len() as int) =~= s);
    } else {
        let rest = s.drop_last();
        lemma_trim_back_subrange(rest, hi);
        assert(rest.subrange(0, hi) =~= s.subrange(0, hi));
    }
}

/// Strip ASCII whitespace from both ends of `s`.
pub fn trim_str(s: &str) -> (r: &str)
    ensures
        r@ == trimmed(s@),
{
    let n = s.unicode_len();
    let mut lo: usize = 0;
    while lo < n && is_space(s.get_char(lo))
        invariant
            lo <= n,
            n == s@.len(),
            forall|j: int| 0 <= j < lo ==> is_space_char(s@[j]),
        decreases n - lo,
    {
        lo = lo + 1;
    }
    let mut hi: usize = n;
    while hi > lo && is_space(s.get_char(hi - 1))
        invariant
            lo <= hi <= n,
            n == s@.len(),
            forall|j: int| hi <= j < n ==> is_space_char(s@[j]),
        decreases hi,
    {
        hi = hi - 1;
    }
    proof {
        lemma_trim_front_subrange(s@, lo as int);
        let front = s@.subrange(lo as int, n as int);
        lemma_trim_back_subrange(front, hi - lo as int);
        assert(front.subrange(0, hi - lo as int) =~= s@.subrange(lo as int, hi as int));
    }
    s.substring_char(lo, hi)
}

/// Whether one character of a policy string is whitespace.
fn is_space(c: char) -> (r: bool)
    ensures
        r == is_space_char(c),
{
    c == ' ' || c == '\t' || c == '\n' || c == '\r' || c == '\u{b}' || c == '\u{c}'
}

/// An ASCII upper-case letter.
pub open spec fn is_upper(c: char) -> bool {
    65 <= c as u32 <= 90
}

/// An ASCII lower-case letter.
pub open spec fn is_lower(c: char) -> bool {
    97 <= c as u32 <= 122
}

/// Two characters are equal up to ASCII case: identical, or the same letter
/// in the two cases (the code points differ by 32).
pub open spec fn chars_eq_nocase(a: char, b: char) -> bool {
    a == b || (is_upper(a) && b as u32 == a as u32 + 32) || (is_lower(a) && a as u32 == b as u32
        + 32)
}

/// Two sequences are equal up to ASCII case, character by character.
pub open spec fn str_eq_nocase(a: Seq<char>, b: Seq<char>) -> bool {
    a.len() == b.len() && (forall|i: int| 0 <= i < a.len() ==> chars_eq_nocase(a[i], b[i]))
}

/// The string comparison the policy parser uses: exact equality, or equality
/// up to ASCII case when `ignore_case` is set.
pub open spec fn compare_spec(a: Seq<char>, b: Seq<char>, ignore_case: bool) -> bool {
    if ignore_case {
        str_eq_nocase(a, b)
    } else {
        a == b
    }
}

fn char_eq_nocase(a: char, b: char) -> (r: bool)
    ensures
        r == chars_eq_nocase(a, b),
{
    if a == b {
        true
    } else {
        let au = a as u32;
        let bu = b as u32;
        (65 <= au && au <= 90 && bu == au + 32) || (97 <= au && au <= 122 && au == bu + 32)
    }
}

/// Compare two strings, either exactly or ignoring ASCII case.
pub fn compare_str(a: &str, b: &str, ignore_case: bool) -> (r: bool)
    ensures
        r == compare_spec(a@, b@, ignore_case),
{
    let an = a.unicode_len();
    let bn = b.unicode_len();
    if an != bn {
        return false;
    }
    let mut i: usize = 0;
    while i < an
        invariant
            i <= an,
            an == a@.len(),
            an == b@.len(),
            forall|j: int| 0 <= j < i ==> chars_eq_nocase(a@[j], b@[j]),
            !ignore_case ==> forall|j: int| 0 <= j < i ==> a@[j] == b@[j],
        decreases an - i,
    {
        let ca = a.get_char(i);
        let cb = b.get_char(i);
        let same = if ignore_case {
            char_eq_nocase(ca, cb)
        } else {
            ca == cb
        };
        if !same {
            proof {
                if !ignore_case {
                    assert(a@[i as int] != b@[i as int]);
                }
            }
            return false;
        }
        i = i + 1;
    }
    proof {
        if !ignore_case {
            assert(a@ =~= b@);
        }
    }
    true
}

/// A decimal digit.
pub open spec fn is_digit(c: char) -> bool {
    48 <= c as u32 <= 57
}

/// The numeric value of a digit character.
pub open spec fn digit_val(c: char) -> int {
    c as u32 - 48
}

/// Every character of the sequence is a decimal digit.
pub open spec fn all_digits(s: Seq<char>) -> bool {
    forall|i: int| 0 <= i < s.len() ==> is_digit(s[i])
}

/// The value of a sequence of decimal digits, most significant first.
pub open spec fn digits_value(s: Seq<char>) -> int
    decreases s.len(),
{
    if s.len() == 0 {
        0
    } else {
        digits_value(s.drop_last()) * 10 + digit_val(s.last())
    }
}

/// The digits of a numeral: everything after an optional leading `+`.
pub open spec fn digits_part(s: Seq<char>) -> Seq<char> {
    if s.len() > 0 && s[0] == '+' {
        s.subrange(1, s.len() as int)
    } else {
        s
    }
}

/// What `u32` accepts as a decimal numeral: an optional leading `+`, then at
/// least one digit, with a value that fits in 32 bits.
pub open spec fn is_u32_numeral(s: Seq<char>) -> bool {
    let d = digits_part(s);
    d.len() > 0 && all_digits(d) && digits_value(d) <= u32::MAX
}

/// The value of such a numeral.
pub open spec fn u32_numeral_value(s: Seq<char>) -> int {
    digits_value(digits_part(s))
}

proof fn lemma_digits_value_nonneg(s: Seq<char>)
    requires
        all_digits(s),
    ensures
        digits_value(s) >= 0,
    decreases s.len(),
{
    if s.len() > 0 {
        lemma_digits_value_nonneg(s.drop_last());
    }
}

proof fn lemma_digits_value_mono(s: Seq<char>, k: int)
    requires
        all_digits(s),
        0 <= k <= s.len(),
    ensures
        digits_value(s) >= digits_value(s.subrange(0, k)),
    decreases s.len() - k,
{
    if k == s.len() {
        assert(s.subrange(0, s.len() as int) =~= s);
    } else {
        lemma_digits_value_mono(s, k + 1);
        let longer = s.subrange(0, k + 1);
        assert(longer.drop_last() =~= s.subrange(0, k));
        lemma_digits_value_nonneg(longer.drop_last());
    }
}

/// Parse a decimal `u32` numeral, exactly as `u32` itself reads one: an
/// optional `+`, then digits, rejecting anything else and values over
/// `u32::MAX`.
pub fn parse_u32_str(s: &str) -> (r: Option<u32>)
    ensures
        is_u32_numeral(s@) ==> (r matches Some(v) && v as int == u32_numeral_value(s@)),
        !is_u32_numeral(s@) ==> r is None,
{
    let n = s.unicode_len();
    let start: usize = if n > 0 && s.get_char(0) == '+' {
        1
    } else {
        0
    };
    proof {
        if start == 1 {
            assert(digits_part(s@) =~= s@.subrange(1, n as int));
        } else {
            assert(digits_part(s@) =~= s@);
        }
    }
    if start == n {
        return None;
    }
    let ghost digits: Seq<char> = s@.subrange(start as int, n as int);
    let mut acc: u32 = 0;
    let mut i: usize = start;
    while i < n
        invariant
            start <= i <= n,
            n == s@.len(),
            digits == s@.subrange(start as int, n as int),
            digits == digits_part(s@),
            forall|j: int| start <= j < i ==> is_digit(s@[j]),
            acc as int == digits_value(s@.subrange(start as int, i as int)),
        decreases n - i,
    {
        let c = s.get_char(i);
        let cu = c as u32;
        if cu < 48 || cu > 57 {
            proof {
                assert(!is_digit(digits[i - start as int]));
            }
            return None;
        }
        let d: u32 = cu - 48;
        let ghost prefix = s@.subrange(start as int, i as int);
        let ghost longer = s@.subrange(start as int, i as int + 1);
        proof {
            assert(longer.drop_last() =~= prefix);
            assert(longer.last() == s@[i as int]);
        }
        if acc > 429496729 || (acc == 429496729 && d > 5) {
            proof {
                assert(digits_value(longer) > u32::MAX);
                if all_digits(digits) {
                    lemma_digits_value_mono(digits, i - start as int + 1);
                    assert(digits.subrange(0, i - start as int + 1) =~= longer);
                }
            }
            return None;
        }
        acc = acc * 10 + d;
        i = i + 1;
    }
    proof {
        assert(s@.subrange(start as int, n as int) =~= digits);
        assert(forall|j: int| 0 <= j < digits.len() ==> is_digit(digits[j]));
    }
    Some(acc)
}

/// The policy a configuration string denotes, if any: after trimming, the
/// named variants first — compared with [`compare_spec`] — then a decimal
/// pixel count.
pub open spec fn size_of_str_spec(s: Seq<char>, ignore_case: bool) -> Option<Size> {
    let t = trimmed(s);
    if compare_spec(t, "screen"@, ignore_case) {
        Some(Size::Screen)
    } else if compare_spec(t, "fit"@, ignore_case) {
        Some(Size::Fit)
    } else if is_u32_numeral(t) {
        Some(Size::Fixed(u32_numeral_value(t) as u32))
    } else {
        None
    }
}

/// Parse a per-axis size policy from its configuration string: `screen`,
/// `fit`, or a fixed pixel count; anything else is rejected with the fixed
/// message `invalid size`.
pub fn size_from_str(data: &str, ignore_case: bool) -> (r: Result<Size, String>)
    ensures
        size_of_str_spec(data@, ignore_case) matches Some(size) ==> r == Ok::<Size, String>(size),
        size_of_str_spec(data@, ignore_case) is None ==> (r matches Err(msg) && msg@
            == "invalid size"@),
{
    let t = trim_str(data);
    if compare_str(t, "screen", ignore_case) {
        Ok(Size::Screen)
    } else if compare_str(t, "fit", ignore_case) {
        Ok(Size::Fit)
    } else {
        match parse_u32_str(t) {
            Some(v) => Ok(Size::Fixed(v)),
            None => Err("invalid size".to_owned()),
        }
    }
}

} // verus!
