//! Contract-ABI encoding and decoding of call parameters.
//!
//! The chain speaks an EVM-shaped contract ABI: a call payload is a
//! four-byte selector followed by head words and padded tails. The
//! encoding itself is done by the `ethers-core` ABI coder behind
//! trusted wrappers; the exact byte layouts those calls produce are
//! stated here as spec functions, so everything built on top is proved
//! against the real wire format.

use vstd::prelude::*;

use crate::errors::HyperlaneTronError;
use crate::message::{be32, be32_at};

verus! {

/// `n` zero bytes.
pub open spec fn zeros(n: nat) -> Seq<u8> {
    Seq::new(n, |i: int| 0u8)
}

/// `n` rounded up to a multiple of the 32-byte word size.
pub open spec fn pad32_ceil(n: int) -> int {
    ((n + 31) / 32) * 32
}

/// A 32-byte word holding a small integer right-aligned.
pub open spec fn abi_word32(x: u32) -> Seq<u8> {
    zeros(28).add(be32(x))
}

/// `b` padded with zeros up to a multiple of the word size.
pub open spec fn abi_padded(b: Seq<u8>) -> Seq<u8> {
    b.add(zeros((pad32_ceil(b.len() as int) - b.len()) as nat))
}

/// The tail of a dynamic bytes argument: its length word, then the
/// padded bytes.
pub open spec fn abi_bytes_tail(b: Seq<u8>) -> Seq<u8> {
    abi_word32(b.len() as u32).add(abi_padded(b))
}

/// ABI encoding of two dynamic bytes arguments: two offset words, then
/// the two tails.
pub open spec fn abi_two_bytes(a: Seq<u8>, b: Seq<u8>) -> Seq<u8> {
    abi_word32(64).add(abi_word32((96 + pad32_ceil(a.len() as int)) as u32)).add(
        abi_bytes_tail(a),
    ).add(abi_bytes_tail(b))
}

/// A 32-byte word holding a 20-byte account hash left-padded with
/// zeros.
pub open spec fn abi_address_word(h: Seq<u8>) -> Seq<u8> {
    zeros(12).add(h)
}

/// ABI encoding of one static address argument followed by two dynamic
/// arguments: the address word, two offset words, then the two tails.
pub open spec fn abi_address_two_bytes(addr: Seq<u8>, a: Seq<u8>, b: Seq<u8>) -> Seq<u8> {
    abi_address_word(addr).add(abi_word32(96)).add(
        abi_word32((128 + pad32_ceil(a.len() as int)) as u32),
    ).add(abi_bytes_tail(a)).add(abi_bytes_tail(b))
}

/// Whether `d` decodes as a single dynamic bytes argument: an in-range
/// offset word, then an in-range length word at that offset.
pub open spec fn abi_bytes_wf(d: Seq<u8>) -> bool {
    &&& d.len() >= 32
    &&& (forall|i: int| 0 <= i < 28 ==> d[i] == 0)
    &&& (be32_at(d, 28) as int) + 32 <= d.len()
    &&& (forall|i: int|
        (be32_at(d, 28) as int) <= i < (be32_at(d, 28) as int) + 28 ==> d[i] == 0)
    &&& (be32_at(d, 28) as int) + 32 + (be32_at(d, (be32_at(d, 28) as int) + 28) as int)
        <= d.len()
}

/// The bytes payload carried by a well-formed single-bytes encoding.
pub open spec fn abi_bytes_payload(d: Seq<u8>) -> Seq<u8> {
    let off = be32_at(d, 28) as int;
    let len = be32_at(d, off + 28) as int;
    d.subrange(off + 32, off + 32 + len)
}

/// Read a 32-bit integer out of a single returned word: 28 leading
/// zero bytes, then the value big-endian. A wider value does not fit
/// the caller's type and is a malformed response.
pub fn decode_u32_word(data: &Vec<u8>) -> (r: Result<u32, HyperlaneTronError>)
    ensures
        r is Ok <==> data@.len() == 32 && (forall|i: int| 0 <= i < 28 ==> data@[i] == 0),
        r matches Ok(v) ==> v == be32_at(data@, 28),
        r matches Err(e) ==> e == HyperlaneTronError::AbiEncodingError,
{
    if data.len() != 32 {
        return Err(HyperlaneTronError::AbiEncodingError);
    }
    let mut i: usize = 0;
    while i < 28
        invariant
            data@.len() == 32,
            i <= 28,
            forall|k: int| 0 <= k < i ==> data@[k] == 0,
        decreases 28 - i,
    {
        if data[i] != 0 {
            return Err(HyperlaneTronError::AbiEncodingError);
        }
        i = i + 1;
    }
    Ok(crate::message::read_be32(data, 28))
}

/// Read a boolean out of a single returned word: 31 leading zero
/// bytes, then zero or one.
pub fn decode_bool_word(data: &Vec<u8>) -> (r: Result<bool, HyperlaneTronError>)
    ensures
        r is Ok <==> data@.len() == 32 && (forall|i: int| 0 <= i < 31 ==> data@[i] == 0) && (
        data@[31] == 0 || data@[31] == 1),
        r matches Ok(b) ==> b == (data@[31] == 1),
        r matches Err(e) ==> e == HyperlaneTronError::AbiEncodingError,
{
    if data.len() != 32 {
        return Err(HyperlaneTronError::AbiEncodingError);
    }
    let mut i: usize = 0;
    while i < 31
        invariant
            data@.len() == 32,
            i <= 31,
            forall|k: int| 0 <= k < i ==> data@[k] == 0,
        decreases 31 - i,
    {
        if data[i] != 0 {
            return Err(HyperlaneTronError::AbiEncodingError);
        }
        i = i + 1;
    }
    if data[31] == 0 {
        Ok(false)
    } else if data[31] == 1 {
        Ok(true)
    } else {
        Err(HyperlaneTronError::AbiEncodingError)
    }
}

/// Take the 20-byte account hash out of a returned address word,
/// the low-order bytes of the 32-byte word.
pub fn decode_address_word(data: &Vec<u8>) -> (r: Result<Vec<u8>, HyperlaneTronError>)
    ensures
        r is Ok <==> data@.len() == 32,
        r matches Ok(h) ==> h@ == data@.subrange(12, 32),
        r matches Err(e) ==> e == HyperlaneTronError::AbiEncodingError,
{
    if data.len() != 32 {
        return Err(HyperlaneTronError::AbiEncodingError);
    }
    Ok(crate::message::copy_range(data, 12, 32))
}

/// Split a returned pair of one 32-byte word and one 32-bit integer:
/// the word, then the value right-aligned in its own word.
pub fn decode_word_and_u32(data: &Vec<u8>) -> (r: Result<(Vec<u8>, u32), HyperlaneTronError>)
    ensures
        r is Ok <==> data@.len() == 64 && (forall|i: int| 32 <= i < 60 ==> data@[i] == 0),
        r matches Ok(p) ==> p.0@ == data@.subrange(0, 32) && p.1 == be32_at(data@, 60),
        r matches Err(e) ==> e == HyperlaneTronError::AbiEncodingError,
{
    if data.len() != 64 {
        return Err(HyperlaneTronError::AbiEncodingError);
    }
    let mut i: usize = 32;
    while i < 60
        invariant
            data@.len() == 64,
            32 <= i <= 60,
            forall|k: int| 32 <= k < i ==> data@[k] == 0,
        decreases 60 - i,
    {
        if data[i] != 0 {
            return Err(HyperlaneTronError::AbiEncodingError);
        }
        i = i + 1;
    }
    let word0 = crate::message::copy_range(data, 0, 32);
    let value = crate::message::read_be32(data, 60);
    Ok((word0, value))
}

/// The first four bytes of the keccak digest of a function signature;
/// a fixed function of the signature text alone.
pub uninterp spec fn selector_of(sig: Seq<char>) -> Seq<u8>;

/// Relies on `ethers_core::utils::id`: the four-byte selector of a
/// function signature, a pure digest of the signature text.
#[verifier::external_body]
pub fn selector_for(sig: &str) -> (r: Vec<u8>)
    ensures
        r@ == selector_of(sig@),
        r@.len() == 4,
{
    ethers_core::utils::id(sig).to_vec()
}

/// Relies on `ethers_core::abi::encode` on two `Token::Bytes` values:
/// it lays out two offset words followed by the length-prefixed,
/// zero-padded tails, exactly as `abi_two_bytes` states.
#[verifier::external_body]
pub fn abi_encode_pair_of_bytes(a: &Vec<u8>, b: &Vec<u8>) -> (r: Vec<u8>)
    requires
        a@.len() <= 0x1000_0000,
        b@.len() <= 0x1000_0000,
    ensures
        r@ == abi_two_bytes(a@, b@),
{
    ethers_core::abi::encode(
        &[
            ethers_core::abi::Token::Bytes(a.clone()),
            ethers_core::abi::Token::Bytes(b.clone()),
        ],
    )
}

/// Relies on `ethers_core::abi::encode` on one `Token::Address` and two
/// dynamic tokens. A `string` argument shares its encoding with
/// `bytes`, so the text argument travels as its raw bytes; the layout
/// is exactly what `abi_address_two_bytes` states.
#[verifier::external_body]
pub fn abi_encode_address_and_pair_of_bytes(addr: &Vec<u8>, a: &Vec<u8>, b: &Vec<u8>) -> (r: Vec<
    u8,
>)
    requires
        addr@.len() == 20,
        a@.len() <= 0x1000_0000,
        b@.len() <= 0x1000_0000,
    ensures
        r@ == abi_address_two_bytes(addr@, a@, b@),
{
    let h = ethers_core::types::H160::from_slice(addr.as_slice());
    ethers_core::abi::encode(
        &[
            ethers_core::abi::Token::Address(h),
            ethers_core::abi::Token::Bytes(a.clone()),
            ethers_core::abi::Token::Bytes(b.clone()),
        ],
    )
}

/// Relies on `ethers_core::abi::decode` with a single `Bytes`
/// parameter: it reads an offset word and a length word, both with 28
/// leading zero bytes, and takes that many payload bytes; it fails on
/// every other shape.
#[verifier::external_body]
pub fn abi_decode_single_bytes(data: &Vec<u8>) -> (r: Option<Vec<u8>>)
    ensures
        r is Some <==> abi_bytes_wf(data@),
        r matches Some(v) ==> v@ == abi_bytes_payload(data@),
{
    match ethers_core::abi::decode(&[ethers_core::abi::ParamType::Bytes], data.as_slice()) {
        Ok(mut tokens) => match tokens.pop() {
            Some(ethers_core::abi::Token::Bytes(b)) => Some(b),
            _ => None,
        },
        Err(_) => None,
    }
}

} // verus!
