//! Character classes and decimal parsing/formatting used throughout the
//! library: cursor offsets are read out of URLs as decimal numbers, and the
//! random tokens of the OAuth flow are checked to be alphanumeric.

use vstd::prelude::*;

verus! {

// ---------------------------------------------------------------------------
// Character classes
// ---------------------------------------------------------------------------

pub open spec fn is_digit_char(c: char) -> bool {
    '0' <= c && c <= '9'
}

pub open spec fn is_alpha_char(c: char) -> bool {
    ('A' <= c && c <= 'Z') || ('a' <= c && c <= 'z')
}

pub open spec fn is_alphanumeric_char(c: char) -> bool {
    is_alpha_char(c) || is_digit_char(c)
}

pub open spec fn all_alphanumeric(s: Seq<char>) -> bool {
    forall|i: int| 0 <= i < s.len() ==> is_alphanumeric_char(#[trigger] s[i])
}

pub open spec fn all_digits(s: Seq<char>) -> bool {
    forall|i: int| 0 <= i < s.len() ==> is_digit_char(#[trigger] s[i])
}

pub open spec fn digit_val(c: char) -> int {
    c as int - '0' as int
}

// ---------------------------------------------------------------------------
// Decimal values
// ---------------------------------------------------------------------------

/// The numeric value of a digit string, most significant digit first.
pub open spec fn dec_value(s: Seq<char>) -> int
    decreases s.len(),
{
    if s.len() == 0 {
        0
    } else {
        dec_value(s.drop_last()) * 10 + digit_val(s.last())
    }
}

/// What parsing a decimal `u32` out of `s` yields: the string must be
/// nonempty, all digits, and its value must fit in a `u32`.
pub open spec fn parsed_u32(s: Seq<char>) -> Option<u32> {
    if s.len() > 0 && all_digits(s) && dec_value(s) <= u32::MAX {
        Some(dec_value(s) as u32)
    } else {
        None
    }
}

proof fn lemma_dec_value_nonneg(s: Seq<char>)
    requires
        all_digits(s),
    ensures
        dec_value(s) >= 0,
    decreases s.len(),
{
    if s.len() > 0 {
        assert(all_digits(s.drop_last()));
        lemma_dec_value_nonneg(s.drop_last());
    }
}

/// Parse a decimal `u32`.  Returns `None` on an empty string, a non-digit
/// character, or a value above `u32::MAX`.
pub fn parse_u32(s: &str) -> (r: Option<u32>)
    ensures
        r == parsed_u32(s@),
{
    let n = s.unicode_len();
    if n == 0 {
        return None;
    }
    // `acc` tracks the exact value while it still fits in a `u32`; once the
    // value is known to be too large, `acc` only stays above `u32::MAX`.
    let mut acc: u64 = 0;
    let mut i: usize = 0;
    while i < n
        invariant
            0 < n == s@.len(),
            0 <= i <= n,
            all_digits(s@.subrange(0, i as int)),
            dec_value(s@.subrange(0, i as int)) <= u32::MAX ==> acc == dec_value(
                s@.subrange(0, i as int),
            ),
            dec_value(s@.subrange(0, i as int)) > u32::MAX ==> acc > u32::MAX,
            acc <= 0xFFFF_FFFF_FFFF,
        decreases n - i,
    {
        let c = s.get_char(i);
        let cv = c as u32;
        if cv < 48 || cv > 57 {
            assert(!is_digit_char(s@[i as int]));
            return None;
        }
        let d: u64 = (cv - 48) as u64;
        assert(is_digit_char(s@[i as int]));
        assert(d == digit_val(s@[i as int]));
        let ghost pre = s@.subrange(0, i as int);
        let ghost cur = s@.subrange(0, i as int + 1);
        assert(cur.drop_last() =~= pre);
        assert(cur.last() == s@[i as int]);
        proof {
            lemma_dec_value_nonneg(pre);
        }
        if acc > u32::MAX as u64 {
            // Already too large; appending digits keeps the value too large.
            assert(dec_value(cur) == dec_value(pre) * 10 + digit_val(cur.last()));
            assert(dec_value(pre) * 10 >= dec_value(pre)) by {
                lemma_dec_value_nonneg(pre);
            }
        } else {
            acc = acc * 10 + d;
        }
        i = i + 1;
        assert(all_digits(cur));
    }
    assert(s@.subrange(0, n as int) =~= s@);
    if acc > u32::MAX as u64 {
        None
    } else {
        Some(acc as u32)
    }
}

// ---------------------------------------------------------------------------
// Decimal formatting
// ---------------------------------------------------------------------------

/// The decimal digit string of a nonnegative number, most significant digit
/// first.
pub open spec fn dec_digits(n: int) -> Seq<char>
    decreases n,
{
    if n < 10 {
        seq![(n + '0' as int) as char]
    } else {
        dec_digits(n / 10) + seq![(n % 10 + '0' as int) as char]
    }
}

fn dec_bytes(n: u32) -> (r: Vec<u8>)
    ensures
        r@.map_values(|b: u8| b as char) == dec_digits(n as int),
        forall|i: int| 0 <= i < r@.len() ==> #[trigger] r@[i] < 0x80,
    decreases n,
{
    if n < 10 {
        let mut v: Vec<u8> = Vec::new();
        v.push(48 + n as u8);
        assert(v@.map_values(|b: u8| b as char) =~= dec_digits(n as int));
        v
    } else {
        let mut v = dec_bytes(n / 10);
        v.push(48 + (n % 10) as u8);
        assert(v@.map_values(|b: u8| b as char) =~= dec_digits(n as int));
        v
    }
}

/// Relies on `String::from_utf8`: bytes below 0x80 are valid UTF-8 and decode
/// to exactly one `char` per byte, each the character with that code.
#[verifier::external_body]
pub fn string_from_ascii(bytes: Vec<u8>) -> (r: String)
    requires
        forall|i: int| 0 <= i < bytes@.len() ==> #[trigger] bytes@[i] < 0x80,
    ensures
        r@ == bytes@.map_values(|b: u8| b as char),
{
    match String::from_utf8(bytes) {
        Ok(s) => s,
        Err(_) => String::new(),
    }
}

/// Copy a string, keeping its characters.
pub fn clone_string(s: &String) -> (r: String)
    ensures
        r@ == s@,
{
    s.clone()
}

/// Format a number in decimal, most significant digit first.
pub fn u32_to_string(n: u32) -> (r: String)
    ensures
        r@ == dec_digits(n as int),
{
    string_from_ascii(dec_bytes(n))
}

/// The decimal digits of a nonnegative number are all digits and read back
/// as that number.
pub proof fn lemma_dec_roundtrip(n: int)
    requires
        0 <= n,
    ensures
        dec_digits(n).len() > 0,
        all_digits(dec_digits(n)),
        dec_value(dec_digits(n)) == n,
    decreases n,
{
    if n < 10 {
        let s = dec_digits(n);
        assert(s.len() == 1);
        assert(s[0] == (n + '0' as int) as char);
        assert(s[0] as int == n + 48);
        assert(is_digit_char(s[0]));
        assert(s.drop_last() =~= Seq::<char>::empty());
        assert(dec_value(s) == dec_value(s.drop_last()) * 10 + digit_val(s.last()));
        assert(dec_value(s) == n);
    } else {
        lemma_dec_roundtrip(n / 10);
        let s = dec_digits(n);
        let pre = dec_digits(n / 10);
        assert(s == pre + seq![(n % 10 + '0' as int) as char]);
        assert(s.drop_last() =~= pre);
        assert(s.last() == (n % 10 + '0' as int) as char);
        assert(s.last() as int == n % 10 + 48);
        assert(digit_val(s.last()) == n % 10);
        assert(dec_value(s) == dec_value(pre) * 10 + (n % 10));
        assert(dec_value(s) == (n / 10) * 10 + (n % 10));
        assert forall|i: int| 0 <= i < s.len() implies is_digit_char(#[trigger] s[i]) by {
            if i < pre.len() {
                assert(s[i] == pre[i]);
            } else {
                assert(s[i] == s.last());
            }
        }
    }
}

/// Formatting and parsing are inverse: the decimal rendering of a `u32`
/// parses back to exactly that number, so a cursor written into a URL reads
/// back unchanged.
pub proof fn lemma_format_parse_roundtrip(n: u32)
    ensures
        parsed_u32(dec_digits(n as int)) == Some(n),
{
    lemma_dec_roundtrip(n as int);
}

} // verus!
