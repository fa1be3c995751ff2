//! Hexadecimal text, as the node API carries byte fields.
//!
//! Responses name transactions, contracts and log data as hex text;
//! normalizing them into bytes is part of reading the API, so the
//! conversion is verified here.

use vstd::prelude::*;

use crate::errors::HyperlaneTronError;

verus! {

/// Whether a byte is the ASCII code of a hexadecimal digit.
pub open spec fn is_hex_digit(c: u8) -> bool {
    (0x30 <= c <= 0x39) || (0x61 <= c <= 0x66) || (0x41 <= c <= 0x46)
}

/// The value of a hexadecimal digit's ASCII code.
pub open spec fn hex_val(c: u8) -> u8 {
    if 0x30 <= c <= 0x39 {
        (c - 0x30) as u8
    } else if 0x61 <= c <= 0x66 {
        (c - 0x61 + 10) as u8
    } else {
        (c - 0x41 + 10) as u8
    }
}

/// The byte spelled by two hexadecimal digits.
pub open spec fn hex_pair(hi: u8, lo: u8) -> u8 {
    (hex_val(hi) * 16 + hex_val(lo)) as u8
}

fn hex_digit_value(c: u8) -> (r: Option<u8>)
    ensures
        r is Some <==> is_hex_digit(c),
        r matches Some(v) ==> v == hex_val(c),
{
    if 0x30 <= c && c <= 0x39 {
        Some(c - 0x30)
    } else if 0x61 <= c && c <= 0x66 {
        Some(c - 0x61 + 10)
    } else if 0x41 <= c && c <= 0x46 {
        Some(c - 0x41 + 10)
    } else {
        None
    }
}

/// Decode hexadecimal text into bytes. Succeeds exactly on an even
/// number of hexadecimal digits; anything else is a malformed
/// encoding.
pub fn decode_hex(text: &Vec<u8>) -> (r: Result<Vec<u8>, HyperlaneTronError>)
    ensures
        r is Ok <==> text@.len() % 2 == 0 && (forall|i: int|
            0 <= i < text@.len() ==> is_hex_digit(#[trigger] text@[i])),
        r matches Ok(b) ==> {
            &&& b@.len() * 2 == text@.len()
            &&& forall|k: int|
                0 <= k < b@.len() ==> #[trigger] b@[k] == hex_pair(text@[2 * k], text@[2 * k + 1])
        },
        r matches Err(e) ==> e == HyperlaneTronError::AbiEncodingError,
{
    if text.len() % 2 != 0 {
        return Err(HyperlaneTronError::AbiEncodingError);
    }
    let mut out: Vec<u8> = Vec::new();
    let mut i: usize = 0;
    while i < text.len()
        invariant
            text@.len() % 2 == 0,
            i % 2 == 0,
            i <= text@.len(),
            out@.len() * 2 == i,
            forall|j: int| 0 <= j < i ==> is_hex_digit(#[trigger] text@[j]),
            forall|k: int|
                0 <= k < out@.len() ==> #[trigger] out@[k] == hex_pair(
                    text@[2 * k],
                    text@[2 * k + 1],
                ),
        decreases text@.len() - i,
    {
        let hi = match hex_digit_value(text[i]) {
            Some(v) => v,
            None => {
                return Err(HyperlaneTronError::AbiEncodingError);
            },
        };
        let lo = match hex_digit_value(text[i + 1]) {
            Some(v) => v,
            None => {
                return Err(HyperlaneTronError::AbiEncodingError);
            },
        };
        out.push(hi * 16 + lo);
        i = i + 2;
    }
    Ok(out)
}

} // verus!
