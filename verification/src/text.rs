//! Text handling that the bootstrap and the reply model share: trimming a
//! separator, reading a decimal integer, decoding UTF-8.

use std::str::FromStr;
use vstd::prelude::*;
use vstd::string::*;
use vstd::utf8::*;

verus! {

/// `s` without the occurrences of `c` at its start.
pub open spec fn trim_start(s: Seq<char>, c: char) -> Seq<char>
    decreases s.len(),
{
    if s.len() > 0 && s[0] == c {
        trim_start(s.drop_first(), c)
    } else {
        s
    }
}

/// `s` without the occurrences of `c` at its end.
pub open spec fn trim_end(s: Seq<char>, c: char) -> Seq<char>
    decreases s.len(),
{
    if s.len() > 0 && s.last() == c {
        trim_end(s.drop_last(), c)
    } else {
        s
    }
}

/// `s` without the occurrences of `c` at either end.
pub open spec fn trimmed(s: Seq<char>, c: char) -> Seq<char> {
    trim_end(trim_start(s, c), c)
}

/// Whether `c` is one of the ten ASCII digits.
pub open spec fn is_digit(c: char) -> bool {
    '0' <= c <= '9'
}

/// Whether every character of `s` is an ASCII digit.
pub open spec fn all_digits(s: Seq<char>) -> bool {
    forall|i: int| 0 <= i < s.len() ==> is_digit(#[trigger] s[i])
}

/// The number that a sequence of ASCII digits writes in base ten.
pub open spec fn digits_value(s: Seq<char>) -> int
    decreases s.len(),
{
    if s.len() == 0 {
        0
    } else {
        10 * digits_value(s.drop_last()) + (s.last() as int - '0' as int)
    }
}

/// The integer that `s` writes in decimal, if it writes one that fits 64
/// signed bits: an optional `+` or `-`, then one or more ASCII digits and
/// nothing else.
pub open spec fn decimal_i64(s: Seq<char>) -> Option<i64> {
    let signed = s.len() > 0 && (s[0] == '-' || s[0] == '+');
    let digits = if signed { s.drop_first() } else { s };
    let magnitude = digits_value(digits);
    let value = if s.len() > 0 && s[0] == '-' { -magnitude } else { magnitude };
    if digits.len() > 0 && all_digits(digits) && i64::MIN <= value <= i64::MAX {
        Some(value as i64)
    } else {
        None
    }
}

/// Trimming at the start takes away the whole run of `c` that `s` begins
/// with, and nothing else.
pub proof fn lemma_trim_start_drops_run(s: Seq<char>, c: char, n: int)
    requires
        0 <= n <= s.len(),
        forall|i: int| 0 <= i < n ==> s[i] == c,
        n == s.len() || s[n] != c,
    ensures
        trim_start(s, c) == s.subrange(n, s.len() as int),
    decreases n,
{
    if n == 0 {
        assert(s.subrange(0, s.len() as int) =~= s);
    } else {
        let rest = s.drop_first();
        assert forall|i: int| 0 <= i < n - 1 implies rest[i] == c by {
            assert(rest[i] == s[i + 1]);
        }
        lemma_trim_start_drops_run(rest, c, n - 1);
        assert(rest.subrange(n - 1, rest.len() as int) =~= s.subrange(n, s.len() as int));
    }
}

/// Trimming at the end takes away the whole run of `c` that `s` ends with,
/// and nothing else.
pub proof fn lemma_trim_end_drops_run(s: Seq<char>, c: char, m: int)
    requires
        0 <= m <= s.len(),
        forall|i: int| m <= i < s.len() ==> s[i] == c,
        m == 0 || s[m - 1] != c,
    ensures
        trim_end(s, c) == s.subrange(0, m),
    decreases s.len() - m,
{
    if m == s.len() {
        assert(s.subrange(0, m) =~= s);
    } else {
        let rest = s.drop_last();
        lemma_trim_end_drops_run(rest, c, m);
        assert(rest.subrange(0, m) =~= s.subrange(0, m));
    }
}

/// Trimming `c` keeps every other character.
pub proof fn lemma_trim_keeps_others(s: Seq<char>, c: char, x: char)
    requires
        s.contains(x),
        x != c,
    ensures
        trim_start(s, c).contains(x),
        trim_end(s, c).contains(x),
        trimmed(s, c).contains(x),
    decreases s.len(), 1int,
{
    let k = choose|k: int| 0 <= k < s.len() && s[k] == x;
    if s[0] == c {
        assert(s.drop_first()[k - 1] == x);
        lemma_trim_keeps_others(s.drop_first(), c, x);
    }
    if s.last() == c {
        assert(s.drop_last()[k] == x);
        lemma_trim_keeps_others(s.drop_last(), c, x);
    }
    lemma_trim_keeps_others_at_end(trim_start(s, c), c, x);
}

/// Trimming `c` at the end keeps every other character.
proof fn lemma_trim_keeps_others_at_end(s: Seq<char>, c: char, x: char)
    requires
        s.contains(x),
        x != c,
    ensures
        trim_end(s, c).contains(x),
    decreases s.len(), 0int,
{
    let k = choose|k: int| 0 <= k < s.len() && s[k] == x;
    if s.last() == c {
        assert(s.drop_last()[k] == x);
        lemma_trim_keeps_others_at_end(s.drop_last(), c, x);
    }
}

/// A text that holds a character which is neither a digit nor a sign writes
/// no integer.
pub proof fn lemma_other_character_is_no_decimal(s: Seq<char>, x: char)
    requires
        s.contains(x),
        !is_digit(x),
        x != '+',
        x != '-',
    ensures
        decimal_i64(s) is None,
{
    let k = choose|k: int| 0 <= k < s.len() && s[k] == x;
    if s[0] == '-' || s[0] == '+' {
        assert(!is_digit(s.drop_first()[k - 1]));
    } else {
        assert(!is_digit(s[k]));
    }
}

/// Each further digit multiplies what was read by ten and adds itself.
pub proof fn lemma_digits_value_step(s: Seq<char>, k: int)
    requires
        0 <= k < s.len(),
    ensures
        digits_value(s.take(k + 1)) == 10 * digits_value(s.take(k)) + (s[k] as int - '0' as int),
{
    assert(s.take(k + 1).drop_last() =~= s.take(k));
}

/// What a prefix of a digit sequence writes is at least zero and at most
/// what the whole sequence writes.
pub proof fn lemma_digits_value_grows(s: Seq<char>, k: int)
    requires
        all_digits(s),
        0 <= k <= s.len(),
    ensures
        0 <= digits_value(s.take(k)) <= digits_value(s),
    decreases s.len() - k,
{
    if k == s.len() {
        assert(s.take(k) =~= s);
        lemma_digits_value_is_natural(s);
    } else {
        lemma_digits_value_is_natural(s.take(k));
        lemma_digits_value_step(s, k);
        assert(is_digit(s[k]));
        lemma_digits_value_grows(s, k + 1);
    }
}

/// A digit sequence writes no negative number.
proof fn lemma_digits_value_is_natural(s: Seq<char>)
    requires
        all_digits(s),
    ensures
        0 <= digits_value(s),
    decreases s.len(),
{
    if s.len() > 0 {
        assert(is_digit(s.last()));
        assert forall|i: int| 0 <= i < s.drop_last().len() implies is_digit(
            #[trigger] s.drop_last()[i],
        ) by {
            assert(s.drop_last()[i] == s[i]);
        }
        lemma_digits_value_is_natural(s.drop_last());
    }
}

/// `text` without the occurrences of `c` at either end, for a text and a
/// character that are ASCII.
pub(crate) fn trim_ascii<'a>(text: &'a str, c: char) -> (r: &'a str)
    requires
        text.is_ascii(),
        '\0' <= c <= '\u{7f}',
    ensures
        r@ == trimmed(text@, c),
        r.is_ascii(),
{
    let bytes = text.as_bytes();
    let n = bytes.len();
    let byte = c as u8;
    proof {
        is_ascii_chars_encode_utf8(text@);
    }
    let mut lo: usize = 0;
    while lo < n && bytes[lo] == byte
        invariant
            n == bytes.len(),
            n == text@.len(),
            0 <= lo <= n,
            byte == c as u8,
            '\0' <= c <= '\u{7f}',
            is_ascii_chars(text@),
            forall|i: int| 0 <= i < n ==> text@[i] as u8 == #[trigger] bytes[i],
            forall|i: int| 0 <= i < lo ==> text@[i] == c,
        decreases n - lo,
    {
        lo += 1;
    }
    let mut hi: usize = n;
    while hi > lo && bytes[hi - 1] == byte
        invariant
            n == bytes.len(),
            n == text@.len(),
            0 <= lo <= hi <= n,
            byte == c as u8,
            '\0' <= c <= '\u{7f}',
            is_ascii_chars(text@),
            forall|i: int| 0 <= i < n ==> text@[i] as u8 == #[trigger] bytes[i],
            forall|i: int| hi <= i < n ==> text@[i] == c,
        decreases hi - lo,
    {
        hi -= 1;
    }
    proof {
        let kept = text@.subrange(lo as int, n as int);
        lemma_trim_start_drops_run(text@, c, lo as int);
        lemma_trim_end_drops_run(kept, c, hi - lo);
        assert(kept.subrange(0, hi - lo) =~= text@.subrange(lo as int, hi as int));
    }
    text.substring_ascii(lo, hi)
}

/// Reads a decimal integer: an optional sign, then digits, and nothing else.
/// A text of another form, or a number that does not fit, gives `None`.
pub fn parse_decimal(text: &str) -> (r: Option<i64>)
    ensures
        r == decimal_i64(text@),
{
    if !text.is_ascii() {
        proof {
            let k = choose|k: int|
                0 <= k < text@.len() && !('\0' <= #[trigger] text@[k] && text@[k] <= '\u{7f}');
            lemma_other_character_is_no_decimal(text@, text@[k]);
        }
        return None;
    }
    let bytes = text.as_bytes();
    let n = bytes.len();
    proof {
        is_ascii_chars_encode_utf8(text@);
    }
    if n == 0 {
        return None;
    }
    let negative = bytes[0] == '-' as u8;
    let start: usize = if negative || bytes[0] == '+' as u8 {
        1
    } else {
        0
    };
    if start == n {
        return None;
    }
    let ghost digits = if start == 1 {
        text@.drop_first()
    } else {
        text@
    };
    let limit: i128 = 0x8000_0000_0000_0000;
    let mut value: i128 = 0;
    let mut i: usize = start;
    while i < n
        invariant
            n == bytes.len(),
            n == text@.len(),
            start <= i <= n,
            start <= 1,
            limit == 0x8000_0000_0000_0000,
            is_ascii_chars(text@),
            forall|j: int| 0 <= j < n ==> text@[j] as u8 == #[trigger] bytes[j],
            n > start,
            negative <==> text@[0] == '-',
            start == 1 <==> text@[0] == '-' || text@[0] == '+',
            digits == if start == 1 {
                text@.drop_first()
            } else {
                text@
            },
            forall|j: int| 0 <= j < i - start ==> is_digit(#[trigger] digits[j]),
            value == digits_value(digits.take(i - start)),
            0 <= value <= limit,
        decreases n - i,
    {
        let byte = bytes[i];
        if byte < '0' as u8 || byte > '9' as u8 {
            proof {
                assert(!is_digit(digits[i - start]));
            }
            return None;
        }
        proof {
            assert(is_digit(digits[i - start]));
            lemma_digits_value_step(digits, i - start);
        }
        value = value * 10 + (byte - '0' as u8) as i128;
        if value > limit {
            proof {
                if all_digits(digits) {
                    lemma_digits_value_grows(digits, i - start + 1);
                }
            }
            return None;
        }
        i += 1;
    }
    proof {
        assert(digits.take(n - start) =~= digits);
    }
    if negative {
        Some((-value) as i64)
    } else if value == limit {
        None
    } else {
        Some(value as i64)
    }
}

/// `str::parse`, for any target type. What comes back is decided by the
/// target's own `FromStr`, so nothing is claimed of it.
#[verifier::external_body]
pub(crate) fn parse_as<T: FromStr>(text: String) -> (r: Option<T>) {
    match text.parse::<T>() {
        Ok(v) => Some(v),
        Err(_) => None,
    }
}

/// Whether `parsed` is an outcome of reading `text` by `T`'s own rule for
/// text: the value that the rule gave, or `None` where it refused the text.
pub closed spec fn parses_as<T: FromStr>(text: Seq<char>, parsed: Option<T>) -> bool {
    exists|held: String| held@ == text && call_ensures(parse_as::<T>, (held,), parsed)
}

/// What the parse of a string gave is an outcome of reading its text.
pub(crate) proof fn lemma_parsed_is_outcome<T: FromStr>(held: String, parsed: Option<T>)
    requires
        call_ensures(parse_as::<T>, (held,), parsed),
    ensures
        parses_as::<T>(held@, parsed),
{
}

/// The error of `String::from_utf8`. Nothing is read from it.
#[verifier::external_type_specification]
#[verifier::external_body]
pub struct ExFromUtf8Error(std::string::FromUtf8Error);

/// `String::from_utf8` succeeds exactly on well-formed UTF-8, and the string
/// it gives holds the characters that the bytes encode.
pub assume_specification[ String::from_utf8 ](bytes: Vec<u8>) -> (r: Result<
    String,
    std::string::FromUtf8Error,
>)
    ensures
        r is Ok <==> valid_utf8(bytes@),
        r matches Ok(s) ==> s@ == decode_utf8(bytes@),
;

} // verus!
