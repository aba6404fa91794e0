//! Helpers around the wire formats: random test inputs, single-bit
//! corruption of base64url strings, hex conversion, and plain-text
//! formatting of results and diffs.

use vstd::prelude::*;
use vstd::string::*;

use rand::Rng;

use crate::b64::{b64url_chars, b64url_decode, b64url_encode, b64url_parse};
use crate::UtilsError;

verus! {

/// Relies on rand::random::<u8> (the process CSPRNG) drawn once per byte:
/// the result has exactly the requested length.
#[verifier::external_body]
pub fn generate_random_bytes(len: usize) -> (r: Vec<u8>)
    ensures
        r@.len() == len,
{
    (0..len).map(|_| rand::random::<u8>()).collect()
}

/// Relies on rand::Rng::gen_range over `0..n`: the result is below `n`.
#[verifier::external_body]
fn rand_below(n: usize) -> (r: usize)
    requires
        n > 0,
    ensures
        r < n,
{
    rand::thread_rng().gen_range(0..n)
}

/// Relies on alloc::string::String::push: it appends exactly the one
/// character.
#[verifier::external_body]
fn string_push(s: &mut String, c: char)
    ensures
        final(s)@ == old(s)@.push(c),
{
    s.push(c);
}

/// A fresh random 32-byte challenge.
pub fn generate_challenge() -> (r: Vec<u8>)
    ensures
        r@.len() == 32,
{
    generate_random_bytes(32)
}

/// A fresh random 64-byte user ID.
pub fn generate_user_id() -> (r: Vec<u8>)
    ensures
        r@.len() == 64,
{
    generate_random_bytes(64)
}

/// The byte with exactly bit `k` set.
pub open spec fn bit_mask(k: nat) -> u8
    recommends
        k < 8,
{
    if k == 0 {
        0x01u8
    } else if k == 1 {
        0x02u8
    } else if k == 2 {
        0x04u8
    } else if k == 3 {
        0x08u8
    } else if k == 4 {
        0x10u8
    } else if k == 5 {
        0x20u8
    } else if k == 6 {
        0x40u8
    } else {
        0x80u8
    }
}

fn bit_mask_byte(k: usize) -> (r: u8)
    requires
        k < 8,
    ensures
        r == bit_mask(k as nat),
{
    if k == 0 {
        0x01
    } else if k == 1 {
        0x02
    } else if k == 2 {
        0x04
    } else if k == 3 {
        0x08
    } else if k == 4 {
        0x10
    } else if k == 5 {
        0x20
    } else if k == 6 {
        0x40
    } else {
        0x80
    }
}

/// The byte string with bit `k` of byte `i` flipped.
pub open spec fn flip_bit(bytes: Seq<u8>, i: int, k: nat) -> Seq<u8>
    recommends
        0 <= i < bytes.len(),
        k < 8,
{
    bytes.update(i, bytes[i] ^ bit_mask(k))
}

/// Law: flipping a bit changes exactly the chosen byte and keeps every
/// other byte.
pub proof fn lemma_flip_bit_changes(bytes: Seq<u8>, i: int, k: nat)
    requires
        0 <= i < bytes.len(),
        k < 8,
    ensures
        flip_bit(bytes, i, k).len() == bytes.len(),
        flip_bit(bytes, i, k)[i] != bytes[i],
        forall|j: int| 0 <= j < bytes.len() && j != i ==> flip_bit(bytes, i, k)[j] == bytes[j],
{
    assert(forall|b: u8, m: u8| m != 0 ==> (b ^ m) != b) by (bit_vector);
    assert(bit_mask(k) != 0);
}

/// Flips one uniformly chosen bit of the decoded bytes and re-encodes; an
/// empty byte string comes back unchanged. Fails exactly when the input is
/// not base64url.
pub fn flip_bit_in_base64(input: &str) -> (r: Result<String, UtilsError>)
    ensures
        match r {
            Ok(out) => ({
                let bytes = b64url_parse(input@);
                &&& bytes is Some
                &&& (bytes->0.len() == 0 ==> out@ == input@)
                &&& (bytes->0.len() > 0 ==> exists|i: int, k: nat|
                    0 <= i < bytes->0.len() && k < 8 && out@ == b64url_chars(
                        #[trigger] flip_bit(bytes->0, i, k),
                    ) && b64url_parse(out@) == Some(flip_bit(bytes->0, i, k)))
            }),
            Err(e) => e == UtilsError::DecodeError && b64url_parse(input@) is None,
        },
{
    let bytes = match b64url_decode(input) {
        Some(v) => v,
        None => {
            return Err(UtilsError::DecodeError);
        },
    };
    if bytes.len() == 0 {
        return Ok(String::from_str(input));
    }
    let byte_index = rand_below(bytes.len());
    let bit_index = rand_below(8);
    let mask = bit_mask_byte(bit_index);
    let mut modified = bytes;
    let flipped: u8 = modified[byte_index] ^ mask;
    modified[byte_index] = flipped;
    let out = b64url_encode(modified.as_slice());
    proof {
        let ghost bs = b64url_parse(input@)->0;
        assert(modified@ =~= flip_bit(bs, byte_index as int, bit_index as nat));
    }
    Ok(out)
}

/// Flips the given bit of the given byte of the decoded bytes and
/// re-encodes. Fails exactly when the input is not base64url or a position
/// is out of range.
pub fn flip_bit_at_position(input: &str, byte_pos: usize, bit_pos: usize) -> (r: Result<
    String,
    UtilsError,
>)
    ensures
        match r {
            Ok(out) => ({
                let bytes = b64url_parse(input@);
                &&& bytes is Some
                &&& byte_pos < bytes->0.len()
                &&& bit_pos < 8
                &&& out@ == b64url_chars(flip_bit(bytes->0, byte_pos as int, bit_pos as nat))
                &&& b64url_parse(out@) == Some(
                    flip_bit(bytes->0, byte_pos as int, bit_pos as nat),
                )
            }),
            Err(UtilsError::DecodeError) => b64url_parse(input@) is None,
            Err(UtilsError::OutOfRange) => b64url_parse(input@) is Some && (byte_pos
                >= b64url_parse(input@)->0.len() || bit_pos >= 8),
        },
{
    let bytes = match b64url_decode(input) {
        Some(v) => v,
        None => {
            return Err(UtilsError::DecodeError);
        },
    };
    if byte_pos >= bytes.len() || bit_pos >= 8 {
        return Err(UtilsError::OutOfRange);
    }
    let mask = bit_mask_byte(bit_pos);
    let mut modified = bytes;
    let flipped: u8 = modified[byte_pos] ^ mask;
    modified[byte_pos] = flipped;
    let out = b64url_encode(modified.as_slice());
    proof {
        let ghost bs = b64url_parse(input@)->0;
        assert(modified@ =~= flip_bit(bs, byte_pos as int, bit_pos as nat));
    }
    Ok(out)
}

/// The text of a pass/fail banner: an ANSI-coloured status, a colon, and
/// the test name.
pub open spec fn test_result_chars(test_name: Seq<char>, passed: bool) -> Seq<char> {
    (if passed {
        "\x1b[32m\u{2713} PASS\x1b[0m: "@
    } else {
        "\x1b[31m\u{2717} FAIL\x1b[0m: "@
    }) + test_name
}

/// Formats a test result for display.
pub fn format_test_result(test_name: &str, passed: bool) -> (r: String)
    ensures
        r@ == test_result_chars(test_name@, passed),
{
    let mut s = if passed {
        String::from_str("\x1b[32m\u{2713} PASS\x1b[0m: ")
    } else {
        String::from_str("\x1b[31m\u{2717} FAIL\x1b[0m: ")
    };
    s.append(test_name);
    s
}

/// One marker per character position: `.` where the two strings agree and
/// `^` where they differ or only one has a character.
pub open spec fn diff_line_chars(original: Seq<char>, modified: Seq<char>) -> Seq<char> {
    Seq::new(
        if original.len() >= modified.len() {
            original.len()
        } else {
            modified.len()
        },
        |i: int|
            if i < original.len() && i < modified.len() && original[i] == modified[i] {
                '.'
            } else {
                '^'
            },
    )
}

/// The full diff report: both strings and the marker line.
pub open spec fn string_diff_chars(
    label: Seq<char>,
    original: Seq<char>,
    modified: Seq<char>,
) -> Seq<char> {
    "Comparing "@ + label + ":\n    Original:  "@ + original + "\n    Corrupted: "@ + modified
        + "\n    Diff:      "@ + diff_line_chars(original, modified)
}

/// Formats a visual diff between two strings.
pub fn format_string_diff(label: &str, original: &str, modified: &str) -> (r: String)
    ensures
        r@ == string_diff_chars(label@, original@, modified@),
{
    let orig_len = original.unicode_len();
    let mod_len = modified.unicode_len();
    let max_len = if orig_len >= mod_len {
        orig_len
    } else {
        mod_len
    };
    let mut diff = String::new();
    let mut i: usize = 0;
    while i < max_len
        invariant
            i <= max_len,
            orig_len == original@.len(),
            mod_len == modified@.len(),
            max_len == diff_line_chars(original@, modified@).len(),
            diff@ =~= diff_line_chars(original@, modified@).subrange(0, i as int),
        decreases max_len - i,
    {
        let marker = if i < orig_len && i < mod_len {
            if original.get_char(i) == modified.get_char(i) {
                '.'
            } else {
                '^'
            }
        } else {
            '^'
        };
        string_push(&mut diff, marker);
        proof {
            assert(diff@ =~= diff_line_chars(original@, modified@).subrange(0, i + 1));
        }
        i = i + 1;
    }
    proof {
        assert(diff@ =~= diff_line_chars(original@, modified@));
    }
    let mut s = String::from_str("Comparing ");
    s.append(label);
    s.append(":\n    Original:  ");
    s.append(original);
    s.append("\n    Corrupted: ");
    s.append(modified);
    s.append("\n    Diff:      ");
    s.append(diff.as_str());
    proof {
        assert(s@ =~= string_diff_chars(label@, original@, modified@));
    }
    s
}

/// The sixteen lower-case hex digits.
pub const HEX_LOWER: [char; 16] = [
    '0',
    '1',
    '2',
    '3',
    '4',
    '5',
    '6',
    '7',
    '8',
    '9',
    'a',
    'b',
    'c',
    'd',
    'e',
    'f',
];

/// The lower-case hex text of a byte string: two digits per byte.
pub open spec fn hex_lower_chars(data: Seq<u8>) -> Seq<char>
    decreases data.len(),
{
    if data.len() == 0 {
        Seq::empty()
    } else {
        seq![
            HEX_LOWER@[(data.first() / 16) as int],
            HEX_LOWER@[(data.first() % 16) as int],
        ] + hex_lower_chars(data.drop_first())
    }
}

/// Converts bytes to a lower-case hex string.
pub fn bytes_to_hex(bytes: &[u8]) -> (r: String)
    ensures
        r@ == hex_lower_chars(bytes@),
{
    let mut s = String::new();
    let mut i: usize = 0;
    proof {
        assert(bytes@.skip(0) =~= bytes@);
    }
    while i < bytes.len()
        invariant
            i <= bytes@.len(),
            hex_lower_chars(bytes@) =~= s@ + hex_lower_chars(bytes@.skip(i as int)),
        decreases bytes@.len() - i,
    {
        let b = bytes[i];
        string_push(&mut s, HEX_LOWER[(b / 16) as usize]);
        string_push(&mut s, HEX_LOWER[(b % 16) as usize]);
        proof {
            assert(bytes@.skip(i as int).drop_first() =~= bytes@.skip(i + 1));
            assert(bytes@.skip(i as int).first() == bytes@[i as int]);
        }
        i = i + 1;
    }
    proof {
        assert(bytes@.skip(bytes@.len() as int) =~= Seq::<u8>::empty());
    }
    s
}

/// The value of one hex digit (either case), if the character is one.
pub open spec fn hex_digit_val(c: char) -> Option<u8> {
    let n = c as int;
    if 48 <= n && n <= 57 {
        Some((n - 48) as u8)
    } else if 97 <= n && n <= 102 {
        Some((n - 87) as u8)
    } else if 65 <= n && n <= 70 {
        Some((n - 55) as u8)
    } else {
        None
    }
}

/// The byte a pair of hex digits denotes.
pub open spec fn hex_pair_val(h: u8, l: u8) -> u8 {
    (h * 16 + l) as u8
}

/// What parsing a hex text yields: the denoted bytes, or nothing when the
/// length is odd or some character is no hex digit.
pub open spec fn hex_parse(s: Seq<char>) -> Option<Seq<u8>>
    decreases s.len(),
{
    if s.len() == 0 {
        Some(Seq::empty())
    } else if s.len() == 1 {
        None
    } else {
        match (hex_digit_val(s[0]), hex_digit_val(s[1]), hex_parse(s.skip(2))) {
            (Some(h), Some(l), Some(rest)) => Some(seq![hex_pair_val(h, l)] + rest),
            _ => None,
        }
    }
}

proof fn lemma_hex_parse_odd(s: Seq<char>)
    requires
        s.len() % 2 == 1,
    ensures
        hex_parse(s) is None,
    decreases s.len(),
{
    if s.len() > 1 {
        lemma_hex_parse_odd(s.skip(2));
    }
}

proof fn lemma_hex_parse_fails(s: Seq<char>, j: int)
    requires
        0 <= j,
        2 * j + 1 < s.len(),
        hex_digit_val(s[2 * j]) is None || hex_digit_val(s[2 * j + 1]) is None,
    ensures
        hex_parse(s) is None,
    decreases j,
{
    if j > 0 {
        assert(s.skip(2)[2 * (j - 1)] == s[2 * j]);
        assert(s.skip(2)[2 * (j - 1) + 1] == s[2 * j + 1]);
        lemma_hex_parse_fails(s.skip(2), j - 1);
    }
}

/// The byte the `j`-th digit pair of a hex text denotes, if both characters
/// are digits.
pub open spec fn hex_pair_at(s: Seq<char>, j: int) -> Option<u8> {
    match (hex_digit_val(s[2 * j]), hex_digit_val(s[2 * j + 1])) {
        (Some(h), Some(l)) => Some(hex_pair_val(h, l)),
        _ => None,
    }
}

proof fn lemma_hex_parse_build(s: Seq<char>, out: Seq<u8>)
    requires
        s.len() == 2 * out.len(),
        forall|j: int| 0 <= j < out.len() ==> #[trigger] hex_pair_at(s, j) == Some(out[j]),
    ensures
        hex_parse(s) == Some(out),
    decreases out.len(),
{
    if out.len() == 0 {
        assert(s.len() == 0);
        assert(out =~= Seq::<u8>::empty());
    } else {
        let s2 = s.skip(2);
        let o2 = out.drop_first();
        assert(hex_pair_at(s, 0) == Some(out[0]));
        assert forall|j: int| 0 <= j < o2.len() implies #[trigger] hex_pair_at(s2, j) == Some(
            o2[j],
        ) by {
            assert(hex_pair_at(s, j + 1) == Some(out[j + 1]));
            assert(s2[2 * j] == s[2 * (j + 1)]);
            assert(s2[2 * j + 1] == s[2 * (j + 1) + 1]);
        }
        lemma_hex_parse_build(s2, o2);
        assert(seq![hex_pair_val(hex_digit_val(s[0])->0, hex_digit_val(s[1])->0)] + o2 =~= out);
    }
}

fn hex_digit_value(c: char) -> (r: Option<u8>)
    ensures
        r == hex_digit_val(c),
{
    let n = c as u32;
    if 48 <= n && n <= 57 {
        Some((n - 48) as u8)
    } else if 97 <= n && n <= 102 {
        Some((n - 87) as u8)
    } else if 65 <= n && n <= 70 {
        Some((n - 55) as u8)
    } else {
        None
    }
}

/// Converts a hex string (either case) to bytes. Fails exactly when the
/// length is odd or some character is no hex digit.
pub fn hex_to_bytes(hex: &str) -> (r: Result<Vec<u8>, UtilsError>)
    ensures
        match r {
            Ok(v) => hex_parse(hex@) == Some(v@),
            Err(e) => e == UtilsError::DecodeError && hex_parse(hex@) is None,
        },
{
    let len = hex.unicode_len();
    if len % 2 != 0 {
        proof {
            lemma_hex_parse_odd(hex@);
        }
        return Err(UtilsError::DecodeError);
    }
    let mut out: Vec<u8> = Vec::new();
    let mut i: usize = 0;
    while 2 * i < len
        invariant
            len == hex@.len(),
            len % 2 == 0,
            2 * i <= len,
            out@.len() == i,
            forall|j: int| 0 <= j < i ==> #[trigger] hex_pair_at(hex@, j) == Some(out@[j]),
        decreases len - 2 * i,
    {
        let hi = match hex_digit_value(hex.get_char(2 * i)) {
            Some(v) => v,
            None => {
                proof {
                    lemma_hex_parse_fails(hex@, i as int);
                }
                return Err(UtilsError::DecodeError);
            },
        };
        let lo = match hex_digit_value(hex.get_char(2 * i + 1)) {
            Some(v) => v,
            None => {
                proof {
                    lemma_hex_parse_fails(hex@, i as int);
                }
                return Err(UtilsError::DecodeError);
            },
        };
        proof {
            assert(hi < 16);
            assert(lo < 16);
        }
        out.push(hi * 16 + lo);
        proof {
            assert(hex_pair_at(hex@, i as int) == Some(out@[i as int]));
        }
        i = i + 1;
    }
    proof {
        lemma_hex_parse_build(hex@, out@);
    }
    Ok(out)
}

} // verus!
