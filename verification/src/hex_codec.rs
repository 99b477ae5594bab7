use vstd::prelude::*;
use vstd::string::StringSliceAdditionalSpecFns;
use crate::error::{ContractError, is_validation_error};

verus! {

/// ASCII code of a hex digit: `0-9`, `a-f` or `A-F`.
pub open spec fn is_hex_digit(b: u8) -> bool {
    (48 <= b <= 57) || (97 <= b <= 102) || (65 <= b <= 70)
}

/// Numeric value of a hex digit, 0 to 15.
pub open spec fn hex_digit_value(b: u8) -> u8
    recommends
        is_hex_digit(b),
{
    if 48 <= b <= 57 {
        (b - 48) as u8
    } else if 97 <= b <= 102 {
        (b - 87) as u8
    } else {
        (b - 55) as u8
    }
}

/// Every byte of the string is a hex digit.
pub open spec fn is_hex_bytes(s: Seq<u8>) -> bool {
    forall|i: int| 0 <= i < s.len() ==> is_hex_digit(#[trigger] s[i])
}

/// The bytes a hex string of even length decodes to: one byte for each
/// pair of digits.
pub open spec fn hex_decoded(s: Seq<u8>) -> Seq<u8>
    recommends
        s.len() % 2 == 0,
        is_hex_bytes(s),
{
    Seq::new(s.len() / 2, |i: int| (hex_digit_value(s[2 * i]) * 16 + hex_digit_value(s[2 * i + 1])) as u8)
}

/// A string is a valid encoding of `n` bytes when it is exactly `2 * n`
/// hex digits.
pub open spec fn is_hex_of_len(s: Seq<u8>, n: int) -> bool {
    s.len() == 2 * n && is_hex_bytes(s)
}

/// Value of one hex digit, or `None` for any other byte.
fn hex_digit(b: u8) -> (r: Option<u8>)
    ensures
        match r {
            Some(v) => is_hex_digit(b) && v == hex_digit_value(b),
            None => !is_hex_digit(b),
        },
{
    if 48 <= b && b <= 57 {
        Some(b - 48)
    } else if 97 <= b && b <= 102 {
        Some(b - 87)
    } else if 65 <= b && b <= 70 {
        Some(b - 55)
    } else {
        None
    }
}

/// Decodes a hex string into exactly `expected_len` bytes. Fails with a
/// `ValidationError` when the string is not `2 * expected_len` characters
/// or holds a character that is no hex digit.
pub fn decode_fixed(s: &str, expected_len: usize) -> (r: Result<Vec<u8>, ContractError>)
    requires
        expected_len <= usize::MAX / 2,
    ensures
        match r {
            Ok(v) => is_hex_of_len(s.spec_bytes(), expected_len as int) && v@ == hex_decoded(
                s.spec_bytes(),
            ) && v@.len() == expected_len,
            Err(e) => !is_hex_of_len(s.spec_bytes(), expected_len as int) && is_validation_error(
                e,
                "invalid hex"@,
            ),
        },
{
    let bytes: &[u8] = s.as_bytes();
    if bytes.len() != 2 * expected_len {
        return Err(ContractError::validation_error("invalid hex"));
    }
    let mut out: Vec<u8> = Vec::new();
    let mut i: usize = 0;
    while i < expected_len
        invariant
            0 <= i <= expected_len,
            expected_len <= usize::MAX / 2,
            bytes@ == s.spec_bytes(),
            bytes@.len() == 2 * expected_len,
            out@.len() == i,
            forall|j: int| 0 <= j < 2 * i ==> is_hex_digit(#[trigger] bytes@[j]),
            forall|j: int|
                0 <= j < i ==> out@[j] == (hex_digit_value(bytes@[2 * j]) * 16 + hex_digit_value(
                    bytes@[2 * j + 1],
                )) as u8,
        decreases expected_len - i,
    {
        let hi = match hex_digit(bytes[2 * i]) {
            Some(v) => v,
            None => {
                return Err(ContractError::validation_error("invalid hex"));
            },
        };
        let lo = match hex_digit(bytes[2 * i + 1]) {
            Some(v) => v,
            None => {
                return Err(ContractError::validation_error("invalid hex"));
            },
        };
        out.push(hi * 16 + lo);
        i = i + 1;
    }
    proof {
        assert(out@ =~= hex_decoded(s.spec_bytes()));
    }
    Ok(out)
}

} // verus!
