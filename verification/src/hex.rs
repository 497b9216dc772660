//! Hex color strings: parsing `#rrggbb` into channels and normalising them.
use vstd::prelude::*;
use vstd::utf8::{encode_utf8, is_ascii_chars};
use std::num::ParseIntError;
use vstd::string::{StrSliceExecFns, StringSliceAdditionalSpecFns};
use crate::text::{ascii_lower, chars_of, to_lowercase};

verus! {

broadcast use vstd::string::group_string_axioms, vstd::utf8::group_utf8_lib;

#[verifier::external_type_specification]
#[verifier::external_body]
pub struct ExParseIntError(ParseIntError);

/// Errors that can occur when parsing a hex color string.
#[derive(Debug, PartialEq, Eq)]
pub enum HexColorError {
    /// The hex string (excluding leading `#`s) was not exactly 6 bytes long.
    InvalidLength(usize),
    /// A hex digit could not be parsed.
    InvalidHex(ParseIntError),
}

/// `s` without its leading `#` characters (all of them).
pub open spec fn strip_hashes(s: Seq<char>) -> Seq<char>
    decreases s.len(),
{
    if s.len() > 0 && s[0] == '#' {
        strip_hashes(s.drop_first())
    } else {
        s
    }
}

/// The value of one hexadecimal digit.
pub open spec fn hex_digit_value(c: char) -> Option<int> {
    if '0' <= c <= '9' {
        Some(c as int - '0' as int)
    } else if 'a' <= c <= 'f' {
        Some(c as int - 'a' as int + 10)
    } else if 'A' <= c <= 'F' {
        Some(c as int - 'A' as int + 10)
    } else {
        None
    }
}

/// The value of a string of hexadecimal digits (zero for the empty string).
pub open spec fn digits_value(ds: Seq<char>) -> Option<int>
    decreases ds.len(),
{
    if ds.len() == 0 {
        Some(0)
    } else {
        match (digits_value(ds.drop_last()), hex_digit_value(ds.last())) {
            (Some(a), Some(d)) => Some(a * 16 + d),
            _ => None,
        }
    }
}

/// What `from_str_radix(s, 16)` reads: an optional leading `+` followed by at
/// least one hexadecimal digit, and nothing else.
pub open spec fn std_radix16(s: Seq<char>) -> Option<int> {
    if s.len() == 0 {
        None
    } else if s[0] == '+' {
        if s.len() == 1 {
            None
        } else {
            digits_value(s.skip(1))
        }
    } else {
        digits_value(s)
    }
}

/// A hexadecimal number: one or more hexadecimal digits and nothing else,
/// read as a number.
pub open spec fn radix16_value(s: Seq<char>) -> Option<int> {
    if s.len() == 0 {
        None
    } else {
        digits_value(s)
    }
}

/// The UTF-8 bytes of `s` once its leading `#`s are removed.
pub open spec fn hex_bytes(s: Seq<char>) -> Seq<u8> {
    encode_utf8(strip_hashes(s))
}

/// The value of channel `i` (0 = red, 1 = green, 2 = blue) of the six hex
/// digits `h`.
pub open spec fn channel(h: Seq<char>, i: int) -> u8 {
    digits_value(h.subrange(2 * i, 2 * i + 2))->0 as u8
}

/// The RGB triple denoted by `s`: after its leading `#`s, exactly six bytes,
/// each a hexadecimal digit, two per channel.
pub open spec fn spec_rgb(s: Seq<char>) -> Option<(u8, u8, u8)> {
    let h = strip_hashes(s);
    if hex_bytes(s).len() == 6 && radix16_value(h) is Some {
        Some((channel(h, 0), channel(h, 1), channel(h, 2)))
    } else {
        None
    }
}

/// Calls `u8::from_str_radix(s, 16)`.
///
/// Claimed of it, as its documentation states: it succeeds exactly when `s` is
/// an optional `+` followed by one or more hex digits whose value fits a `u8`,
/// and then returns that value.
#[verifier::external_body]
fn parse_hex_u8(s: &str) -> (r: Result<u8, ParseIntError>)
    ensures
        r is Ok <==> (std_radix16(s@) is Some && std_radix16(s@)->0 <= u8::MAX),
        r matches Ok(v) ==> v == std_radix16(s@)->0,
{
    u8::from_str_radix(s, 16)
}

/// Calls `u32::from_str_radix(s, 16)`.
///
/// Claimed of it, as its documentation states: it succeeds exactly when `s` is
/// an optional `+` followed by one or more hex digits whose value fits a `u32`,
/// and then returns that value.
#[verifier::external_body]
fn parse_hex_u32(s: &str) -> (r: Result<u32, ParseIntError>)
    ensures
        r is Ok <==> (std_radix16(s@) is Some && std_radix16(s@)->0 <= u32::MAX),
        r matches Ok(v) ==> v == std_radix16(s@)->0,
{
    u32::from_str_radix(s, 16)
}

/// `s` with all leading `#` characters removed (`trim_start_matches('#')`).
pub fn trim_hashes(s: &str) -> (r: &str)
    ensures
        r@ == strip_hashes(s@),
{
    let cs = chars_of(s);
    let mut k: usize = 0;
    assert(s@.skip(0) =~= s@);
    while k < cs.len() && cs[k] == '#'
        invariant
            k <= cs.len(),
            cs@ == s@,
            strip_hashes(s@) == strip_hashes(s@.skip(k as int)),
        decreases cs.len() - k,
    {
        assert(s@.skip(k as int).drop_first() =~= s@.skip(k + 1));
        k += 1;
    }
    assert(s@.skip(k as int) =~= s@.subrange(k as int, cs.len() as int));
    s.substring_char(k, cs.len())
}

/// Whether `c` is a hexadecimal digit.
fn is_hex_digit(c: char) -> (b: bool)
    ensures
        b == (hex_digit_value(c) is Some),
{
    ('0' <= c && c <= '9') || ('a' <= c && c <= 'f') || ('A' <= c && c <= 'F')
}

/// A string reads as digits exactly when each of its characters is a digit.
pub proof fn lemma_digits_some(ds: Seq<char>)
    ensures
        digits_value(ds) is Some <==> forall|i: int| 0 <= i < ds.len() ==> #[trigger] hex_digit_value(ds[i]) is Some,
    decreases ds.len(),
{
    if ds.len() > 0 {
        lemma_digits_some(ds.drop_last());
        if digits_value(ds) is Some {
            assert forall|i: int| 0 <= i < ds.len() implies #[trigger] hex_digit_value(ds[i]) is Some by {
                if i < ds.len() - 1 {
                    assert(ds[i] == ds.drop_last()[i]);
                }
            }
        }
        if forall|i: int| 0 <= i < ds.len() ==> #[trigger] hex_digit_value(ds[i]) is Some {
            assert forall|i: int| 0 <= i < ds.drop_last().len() implies #[trigger] hex_digit_value(ds.drop_last()[i]) is Some by {
                assert(ds.drop_last()[i] == ds[i]);
            }
            assert(hex_digit_value(ds[ds.len() - 1]) is Some);
        }
    }
}

/// Checks that every character of `h` is a hex digit. When one is not,
/// reading that character alone as a number gives the error reported.
fn check_digits(h: &str) -> (r: Result<(), ParseIntError>)
    ensures
        r is Ok <==> digits_value(h@) is Some,
{
    proof {
        lemma_digits_some(h@);
    }
    let n = h.unicode_len();
    for i in 0..n
        invariant
            n == h@.len(),
            forall|j: int| 0 <= j < i ==> #[trigger] hex_digit_value(h@[j]) is Some,
            digits_value(h@) is Some <==> forall|j: int| 0 <= j < h@.len() ==> #[trigger] hex_digit_value(h@[j]) is Some,
    {
        let c = h.get_char(i);
        if !is_hex_digit(c) {
            let bad = h.substring_char(i, i + 1);
            proof {
                assert(bad@ =~= seq![c]);
                reveal_with_fuel(digits_value, 2);
                assert(bad@.drop_last() =~= Seq::<char>::empty());
                assert(std_radix16(bad@) is None);
            }
            if let Err(e) = parse_hex_u8(bad) {
                return Err(e);
            }
        }
    }
    Ok(())
}

/// Reading `#RRGGBB` gives red from the first two hex digits, green from the
/// next two and blue from the last two, each the first digit's value times
/// 16 plus the second's.
pub proof fn law_rgb_channels(s: Seq<char>)
    requires
        spec_rgb(s) is Some,
    ensures
        ({
            let h = strip_hashes(s);
            let (r, g, b) = spec_rgb(s)->0;
            &&& h.len() == 6
            &&& r == hex_digit_value(h[0])->0 * 16 + hex_digit_value(h[1])->0
            &&& g == hex_digit_value(h[2])->0 * 16 + hex_digit_value(h[3])->0
            &&& b == hex_digit_value(h[4])->0 * 16 + hex_digit_value(h[5])->0
        }),
{
    let h = strip_hashes(s);
    lemma_digits_value(h);
    lemma_encode_len(h);
    lemma_digits_some(h);
    reveal_with_fuel(digits_value, 3);
    assert forall|i: int| 0 <= i < 3 implies #[trigger] channel(h, i) as int
        == hex_digit_value(h[2 * i])->0 * 16 + hex_digit_value(h[2 * i + 1])->0 by {
        let p = h.subrange(2 * i, 2 * i + 2);
        assert(p.drop_last().drop_last() =~= Seq::<char>::empty());
        assert(p.drop_last() =~= seq![h[2 * i]]);
        assert(p[0] == h[2 * i]);
        assert(p[1] == h[2 * i + 1]);
        assert(hex_digit_value(h[2 * i]) is Some);
        assert(hex_digit_value(h[2 * i + 1]) is Some);
    }
    assert(channel(h, 0) as int == hex_digit_value(h[0])->0 * 16 + hex_digit_value(h[1])->0);
    assert(channel(h, 1) as int == hex_digit_value(h[2])->0 * 16 + hex_digit_value(h[3])->0);
    assert(channel(h, 2) as int == hex_digit_value(h[4])->0 * 16 + hex_digit_value(h[5])->0);
}

/// Convert a hex color string (`#RRGGBB` or `RRGGBB`) to RGB components.
///
/// Fails with `InvalidLength` unless the string, without its leading `#`s, is
/// exactly 6 bytes long, and with `InvalidHex` when one of its characters is
/// not a hex digit.
pub fn hex_to_rgb(hex: &str) -> (r: Result<(u8, u8, u8), HexColorError>)
    ensures
        hex_bytes(hex@).len() != 6 ==> r == Err::<(u8, u8, u8), HexColorError>(
            HexColorError::InvalidLength(hex_bytes(hex@).len() as usize),
        ),
        r is Ok <==> spec_rgb(hex@) is Some,
        r matches Ok(t) ==> spec_rgb(hex@) == Some(t),
        hex_bytes(hex@).len() == 6 ==> (r matches Err(e) ==> e is InvalidHex),
{
    let h = trim_hashes(hex);
    let n = h.as_bytes().len();
    if n != 6 {
        return Err(HexColorError::InvalidLength(n));
    }
    if let Err(e) = check_digits(h) {
        return Err(HexColorError::InvalidHex(e));
    }
    proof {
        lemma_digits_value(h@);
        lemma_encode_len(h@);
        assert(h@.len() == 6);
    }
    let p0 = h.substring_char(0, 2);
    let p1 = h.substring_char(2, 4);
    let p2 = h.substring_char(4, 6);
    proof {
        lemma_digits_some(h@);
        lemma_pair(h@, 0);
        lemma_pair(h@, 1);
        lemma_pair(h@, 2);
        assert(p0@ == h@.subrange(0, 2));
        assert(p1@ == h@.subrange(2, 4));
        assert(p2@ == h@.subrange(4, 6));
    }
    let r = match parse_hex_u8(p0) {
        Ok(v) => v,
        Err(e) => return Err(HexColorError::InvalidHex(e)),
    };
    let g = match parse_hex_u8(p1) {
        Ok(v) => v,
        Err(e) => return Err(HexColorError::InvalidHex(e)),
    };
    let bl = match parse_hex_u8(p2) {
        Ok(v) => v,
        Err(e) => return Err(HexColorError::InvalidHex(e)),
    };
    Ok((r, g, bl))
}

/// Two hex digits of six read as a number below 256 that `from_str_radix`
/// reads the same way.
proof fn lemma_pair(h: Seq<char>, i: int)
    requires
        h.len() == 6,
        0 <= i < 3,
        forall|j: int| 0 <= j < h.len() ==> #[trigger] hex_digit_value(h[j]) is Some,
    ensures
        std_radix16(h.subrange(2 * i, 2 * i + 2)) == digits_value(h.subrange(2 * i, 2 * i + 2)),
        digits_value(h.subrange(2 * i, 2 * i + 2)) is Some,
        digits_value(h.subrange(2 * i, 2 * i + 2))->0 <= 255,
{
    let p = h.subrange(2 * i, 2 * i + 2);
    assert forall|j: int| 0 <= j < p.len() implies #[trigger] hex_digit_value(p[j]) is Some by {
        assert(p[j] == h[2 * i + j]);
    }
    lemma_digits_some(p);
    lemma_digits_value(p);
    assert(hex_digit_value(p[0]) is Some);
    assert(p[0] != '+');
    reveal_with_fuel(pow16, 3);
}

/// `16^n`.
pub open spec fn pow16(n: nat) -> int
    decreases n,
{
    if n == 0 {
        1
    } else {
        16 * pow16((n - 1) as nat)
    }
}

proof fn lemma_digits_value(ds: Seq<char>)
    requires
        digits_value(ds) is Some,
    ensures
        0 <= digits_value(ds)->0 < pow16(ds.len()),
        is_ascii_chars(ds),
    decreases ds.len(),
{
    if ds.len() > 0 {
        lemma_digits_value(ds.drop_last());
        assert forall|i| 0 <= i < ds.len() implies '\0' <= #[trigger] ds[i] <= '\u{7f}' by {
            if i < ds.len() - 1 {
                assert(ds[i] == ds.drop_last()[i]);
            }
        }
    }
}

proof fn lemma_radix16_ascii(s: Seq<char>)
    requires
        radix16_value(s) is Some,
    ensures
        is_ascii_chars(s),
        s.len() <= 6 ==> radix16_value(s)->0 < pow16(6),
{
    lemma_digits_value(s);
    if s.len() <= 6 {
        lemma_pow16_mono(s.len(), 6);
    }
}

proof fn lemma_pow16_mono(a: nat, b: nat)
    requires
        a <= b,
    ensures
        pow16(a) <= pow16(b),
        pow16(a) >= 1,
    decreases b,
{
    if a < b {
        lemma_pow16_mono(a, (b - 1) as nat);
    } else if a > 0 {
        lemma_pow16_mono((a - 1) as nat, (a - 1) as nat);
    }
}

/// A character sequence is never longer than its UTF-8 encoding.
pub proof fn lemma_encode_len(cs: Seq<char>)
    ensures
        cs.len() <= encode_utf8(cs).len(),
        is_ascii_chars(cs) ==> cs.len() == encode_utf8(cs).len(),
    decreases cs.len(),
{
    if cs.len() > 0 {
        lemma_encode_len(cs.drop_first());
        if is_ascii_chars(cs) {
            assert(is_ascii_chars(cs.drop_first())) by {
                assert forall|i| 0 <= i < cs.drop_first().len() implies '\0' <= #[trigger] cs.drop_first()[i] <= '\u{7f}' by {
                    assert(cs.drop_first()[i] == cs[i + 1]);
                }
            }
        }
    }
}

/// After stripping, a string does not start with `#`.
pub proof fn lemma_strip_hashes_first(s: Seq<char>)
    ensures
        strip_hashes(s).len() == 0 || strip_hashes(s)[0] != '#',
        strip_hashes(strip_hashes(s)) == strip_hashes(s),
    decreases s.len(),
{
    if s.len() > 0 && s[0] == '#' {
        lemma_strip_hashes_first(s.drop_first());
    }
}

/// Properties of ASCII lower-casing.
pub proof fn lemma_ascii_lower_props(s: Seq<char>)
    ensures
        ascii_lower(s).len() == s.len(),
        is_ascii_chars(s) ==> is_ascii_chars(ascii_lower(s)),
        s.len() > 0 && s[0] != '#' ==> ascii_lower(s)[0] != '#',
        ascii_lower(ascii_lower(s)) == ascii_lower(s),
        s.len() > 0 ==> ascii_lower(s).drop_last() == ascii_lower(s.drop_last()),
        s.len() > 0 ==> ascii_lower(s).skip(1) == ascii_lower(s.skip(1)),
{
    assert(ascii_lower(ascii_lower(s)) =~= ascii_lower(s));
    if s.len() > 0 {
        assert(ascii_lower(s).drop_last() =~= ascii_lower(s.drop_last()));
        assert(ascii_lower(s).skip(1) =~= ascii_lower(s.skip(1)));
    }
    if is_ascii_chars(s) {
        assert forall|i| 0 <= i < ascii_lower(s).len() implies '\0' <= #[trigger] ascii_lower(s)[i] <= '\u{7f}' by {
            assert(s[i] <= '\u{7f}');
        }
    }
}

proof fn lemma_digits_lower(ds: Seq<char>)
    ensures
        digits_value(ascii_lower(ds)) == digits_value(ds),
    decreases ds.len(),
{
    lemma_ascii_lower_props(ds);
    if ds.len() > 0 {
        lemma_digits_lower(ds.drop_last());
        let c = ds.last();
        assert(ascii_lower(ds).last() == crate::text::ascii_lower_char(c));
        assert(hex_digit_value(crate::text::ascii_lower_char(c)) == hex_digit_value(c));
    }
}

/// A string that reads as a hex number is ASCII, and still reads as one
/// (with the same value) once lower-cased.
pub proof fn lemma_radix16_ascii_value(s: Seq<char>)
    requires
        radix16_value(s) is Some,
    ensures
        is_ascii_chars(s),
        radix16_value(ascii_lower(s)) == radix16_value(s),
{
    lemma_radix16_ascii(s);
    lemma_ascii_lower_props(s);
    lemma_digits_lower(s);
}

/// What [`normalize_hex`] makes of `s`, when it succeeds.
pub open spec fn spec_normalize(s: Seq<char>) -> Option<Seq<char>> {
    if hex_bytes(s).len() == 6 && radix16_value(strip_hashes(s)) is Some {
        Some(seq!['#'] + ascii_lower(strip_hashes(s)))
    } else {
        None
    }
}

/// Normalize a hex color string to `#rrggbb` (lower case, with one leading `#`).
///
/// Accepts values with or without leading `#`s. Fails with `InvalidLength`
/// unless the rest is exactly 6 bytes, and with `InvalidHex` unless each of
/// its characters is a hex digit.
pub fn normalize_hex(s: &str) -> (r: Result<String, HexColorError>)
    ensures
        hex_bytes(s@).len() != 6 ==> r == Err::<String, HexColorError>(
            HexColorError::InvalidLength(hex_bytes(s@).len() as usize),
        ),
        hex_bytes(s@).len() == 6 ==> (r is Ok <==> radix16_value(strip_hashes(s@)) is Some),
        hex_bytes(s@).len() == 6 ==> (r matches Err(e) ==> e is InvalidHex),
        r matches Ok(out) ==> out@ == seq!['#'] + ascii_lower(strip_hashes(s@)),
        r is Ok <==> spec_normalize(s@) is Some,
        r matches Ok(out) ==> spec_normalize(s@) == Some(out@),
{
    let h = trim_hashes(s);
    let n = h.as_bytes().len();
    if n != 6 {
        return Err(HexColorError::InvalidLength(n));
    }
    if let Err(e) = check_digits(h) {
        return Err(HexColorError::InvalidHex(e));
    }
    proof {
        lemma_encode_len(h@);
        lemma_radix16_ascii(h@);
        reveal_with_fuel(pow16, 7);
        lemma_digits_some(h@);
        assert(hex_digit_value(h@[0]) is Some);
    }
    match parse_hex_u32(h) {
        Err(e) => Err(HexColorError::InvalidHex(e)),
        Ok(_) => {
            proof {
                lemma_radix16_ascii(h@);
            }
            let lower = to_lowercase(h);
            let mut out = String::from_str("#");
            proof {
                reveal_strlit("#");
            }
            out.append(lower.as_str());
            Ok(out)
        },
    }
}

/// The brightness used to tell dark themes from light ones: the sum of the
/// RGB components, or 0 when the string is not a hex color.
pub open spec fn brightness(hex: Seq<char>) -> int {
    match spec_rgb(hex) {
        Some((r, g, b)) => r + g + b,
        None => 0,
    }
}

fn brightness_of(hex: &str) -> (n: u32)
    ensures
        n == brightness(hex@),
{
    match hex_to_rgb(hex) {
        Ok((r, g, b)) => r as u32 + g as u32 + b as u32,
        Err(_) => 0,
    }
}

/// Returns `true` when the theme is dark: its background (`base00`) is
/// darker than its brightest foreground (`base07`), comparing the sums of
/// their RGB components.
pub fn is_dark(base00: &str, base07: &str) -> (b: bool)
    ensures
        b == (brightness(base00@) < brightness(base07@)),
{
    brightness_of(base00) < brightness_of(base07)
}

} // verus!
