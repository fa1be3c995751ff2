//! Bidirectional translation between the framework's 32-byte universal
//! identifier and the chain's native 21-byte account address.
//!
//! A native address is one prefix byte (`0x41`) followed by a 20-byte
//! account hash. Encoding left-pads it with 11 zero bytes into the
//! low-order positions of the 32-byte field; decoding demands that every
//! padding byte is zero and that the remaining 21 bytes pass the native
//! format check, so a foreign-chain identifier that merely collides in
//! the low bytes is rejected rather than silently truncated.

use vstd::prelude::*;

use crate::errors::HyperlaneTronError;

verus! {

/// Width in bytes of the chain-agnostic identifier.
pub const UNIVERSAL_ID_LEN: usize = 32;

/// Width in bytes of a native account address.
pub const NATIVE_ADDRESS_LEN: usize = 21;

/// Number of leading padding bytes when a native address is carried
/// inside a universal identifier.
pub const PAD_LEN: usize = 11;

/// Prefix byte that every native account address starts with.
pub const NATIVE_PREFIX: u8 = 0x41;

/// The framework's 32-byte chain-agnostic identifier.
#[derive(Clone, Debug)]
pub struct UniversalId {
    /// The identifier's bytes, always 32 of them.
    pub bytes: Vec<u8>,
}

impl UniversalId {
    /// The identifier is exactly 32 bytes wide.
    pub open spec fn wf(self) -> bool {
        self.bytes@.len() == UNIVERSAL_ID_LEN
    }

    /// Wrap 32 raw bytes as a universal identifier.
    pub fn from_bytes(bytes: Vec<u8>) -> (r: Result<UniversalId, HyperlaneTronError>)
        ensures
            r matches Ok(id) ==> id.wf() && id.bytes@ == bytes@,
            r is Ok <==> bytes@.len() == UNIVERSAL_ID_LEN,
            r matches Err(e) ==> e == HyperlaneTronError::InvalidAddressFormat,
    {
        if bytes.len() == UNIVERSAL_ID_LEN {
            Ok(UniversalId { bytes })
        } else {
            Err(HyperlaneTronError::InvalidAddressFormat)
        }
    }
}

/// A native account address: `0x41` followed by a 20-byte account hash.
#[derive(Clone, Debug)]
pub struct TronAddress {
    /// The address bytes, always 21 of them, starting with `0x41`.
    pub bytes: Vec<u8>,
}

/// What a well-formed native address looks like, over plain bytes.
pub open spec fn native_wf(b: Seq<u8>) -> bool {
    b.len() == NATIVE_ADDRESS_LEN && b[0] == NATIVE_PREFIX
}

impl TronAddress {
    /// The address is 21 bytes wide and carries the native prefix.
    pub open spec fn wf(self) -> bool {
        native_wf(self.bytes@)
    }
}

/// The universal identifier that carries the native address `a` in its
/// low-order bytes, with zero padding above.
pub open spec fn encoded_id(a: Seq<u8>) -> Seq<u8> {
    Seq::new(UNIVERSAL_ID_LEN as nat, |i: int| if i < PAD_LEN { 0u8 } else { a[i - PAD_LEN] })
}

/// Whether a universal identifier can be decoded into a native address:
/// all padding bytes zero, and the low 21 bytes carry the native prefix.
pub open spec fn decodable(id: Seq<u8>) -> bool {
    &&& forall|i: int| 0 <= i < PAD_LEN ==> id[i] == 0
    &&& id[PAD_LEN as int] == NATIVE_PREFIX
}

/// The native address carried by a decodable universal identifier.
pub open spec fn decoded_native(id: Seq<u8>) -> Seq<u8> {
    id.subrange(PAD_LEN as int, UNIVERSAL_ID_LEN as int)
}

/// Relies on `heliosphere_core::Address::new`: it accepts a 21-byte
/// value exactly when the first byte is the `0x41` prefix.
#[verifier::external_body]
fn native_address_accepted(bytes: &Vec<u8>) -> (r: bool)
    requires
        bytes@.len() == NATIVE_ADDRESS_LEN,
    ensures
        r <==> bytes@[0] == NATIVE_PREFIX,
{
    let raw: [u8; 21] = bytes.as_slice().try_into().unwrap();
    heliosphere_core::Address::new(raw).is_ok()
}

/// Left-pad a native address into the 32-byte universal identifier,
/// placing the native bytes in the low-order positions.
pub fn encode(addr: &TronAddress) -> (r: UniversalId)
    requires
        addr.wf(),
    ensures
        r.wf(),
        r.bytes@ == encoded_id(addr.bytes@),
        decodable(r.bytes@),
        decoded_native(r.bytes@) == addr.bytes@,
{
    let mut out: Vec<u8> = Vec::new();
    let mut i: usize = 0;
    while i < PAD_LEN
        invariant
            i <= PAD_LEN,
            out@.len() == i,
            forall|k: int| 0 <= k < i ==> out@[k] == 0u8,
        decreases PAD_LEN - i,
    {
        out.push(0u8);
        i = i + 1;
    }
    let mut j: usize = 0;
    while j < NATIVE_ADDRESS_LEN
        invariant
            addr.wf(),
            j <= NATIVE_ADDRESS_LEN,
            out@.len() == PAD_LEN + j,
            forall|k: int| 0 <= k < PAD_LEN ==> out@[k] == 0u8,
            forall|k: int| 0 <= k < j ==> out@[PAD_LEN + k] == addr.bytes@[k],
        decreases NATIVE_ADDRESS_LEN - j,
    {
        let b = addr.bytes[j];
        out.push(b);
        j = j + 1;
    }
    let id = UniversalId { bytes: out };
    proof {
        assert(id.bytes@ =~= encoded_id(addr.bytes@));
        assert(decoded_native(id.bytes@) =~= addr.bytes@);
    }
    id
}

/// Recover the native address from a universal identifier. Fails with
/// `InvalidAddressFormat` when any padding byte is nonzero or when the
/// native format check rejects the low 21 bytes.
pub fn decode(id: &UniversalId) -> (r: Result<TronAddress, HyperlaneTronError>)
    requires
        id.wf(),
    ensures
        r is Ok <==> decodable(id.bytes@),
        r matches Ok(a) ==> a.wf() && a.bytes@ == decoded_native(id.bytes@),
        r matches Err(e) ==> e == HyperlaneTronError::InvalidAddressFormat,
{
    let mut i: usize = 0;
    while i < PAD_LEN
        invariant
            id.wf(),
            i <= PAD_LEN,
            forall|k: int| 0 <= k < i ==> id.bytes@[k] == 0u8,
        decreases PAD_LEN - i,
    {
        if id.bytes[i] != 0 {
            return Err(HyperlaneTronError::InvalidAddressFormat);
        }
        i = i + 1;
    }
    let mut native: Vec<u8> = Vec::new();
    let mut j: usize = PAD_LEN;
    while j < UNIVERSAL_ID_LEN
        invariant
            id.wf(),
            PAD_LEN <= j <= UNIVERSAL_ID_LEN,
            native@.len() == j - PAD_LEN,
            forall|k: int| 0 <= k < j - PAD_LEN ==> native@[k] == id.bytes@[PAD_LEN + k],
        decreases UNIVERSAL_ID_LEN - j,
    {
        let b = id.bytes[j];
        native.push(b);
        j = j + 1;
    }
    proof {
        assert(native@ =~= decoded_native(id.bytes@));
    }
    if native_address_accepted(&native) {
        Ok(TronAddress { bytes: native })
    } else {
        Err(HyperlaneTronError::InvalidAddressFormat)
    }
}

/// A native address survives the round trip through the universal
/// identifier space unchanged: encoding then decoding gives it back.
pub proof fn lemma_encode_decode_round_trip(a: Seq<u8>)
    requires
        native_wf(a),
    ensures
        decodable(encoded_id(a)),
        decoded_native(encoded_id(a)) == a,
{
    assert(decoded_native(encoded_id(a)) =~= a);
}

/// A universal identifier with any nonzero byte in the padding window
/// is not decodable, so `decode` rejects it.
pub proof fn lemma_nonzero_padding_rejected(id: Seq<u8>, i: int)
    requires
        0 <= i < PAD_LEN,
        id[i] != 0,
    ensures
        !decodable(id),
{
}

/// Build the native address for a 20-byte account hash coming from the
/// EVM-shaped contract surface, by prepending the native prefix.
pub fn native_from_evm(hash: &Vec<u8>) -> (r: TronAddress)
    requires
        hash@.len() == NATIVE_ADDRESS_LEN - 1,
    ensures
        r.wf(),
        r.bytes@ == seq![NATIVE_PREFIX].add(hash@),
{
    let mut bytes: Vec<u8> = Vec::new();
    bytes.push(NATIVE_PREFIX);
    let mut i: usize = 0;
    while i < hash.len()
        invariant
            hash@.len() == NATIVE_ADDRESS_LEN - 1,
            i <= hash@.len(),
            bytes@.len() == 1 + i,
            bytes@[0] == NATIVE_PREFIX,
            forall|k: int| 0 <= k < i ==> bytes@[1 + k] == hash@[k],
        decreases hash@.len() - i,
    {
        let b = hash[i];
        bytes.push(b);
        i = i + 1;
    }
    proof {
        assert(bytes@ =~= seq![NATIVE_PREFIX].add(hash@));
    }
    TronAddress { bytes }
}

/// The universal identifier for a 20-byte account hash coming from
/// the EVM-shaped contract surface: prefix it natively, then left-pad.
pub fn universal_from_evm(hash: &Vec<u8>) -> (r: UniversalId)
    requires
        hash@.len() == NATIVE_ADDRESS_LEN - 1,
    ensures
        r.wf(),
        r.bytes@ == encoded_id(seq![NATIVE_PREFIX].add(hash@)),
        decodable(r.bytes@),
        decoded_native(r.bytes@) == seq![NATIVE_PREFIX].add(hash@),
{
    let native = native_from_evm(hash);
    encode(&native)
}

/// Take the low 20 bytes of a universal identifier as an EVM-shaped
/// account hash, the conversion used for validator identities.
pub fn evm_hash_from_universal(id: &UniversalId) -> (r: Vec<u8>)
    requires
        id.wf(),
    ensures
        r@ == id.bytes@.subrange(12, UNIVERSAL_ID_LEN as int),
{
    let mut out: Vec<u8> = Vec::new();
    let mut i: usize = 12;
    while i < UNIVERSAL_ID_LEN
        invariant
            id.wf(),
            12 <= i <= UNIVERSAL_ID_LEN,
            out@.len() == i - 12,
            forall|k: int| 0 <= k < i - 12 ==> out@[k] == id.bytes@[12 + k],
        decreases UNIVERSAL_ID_LEN - i,
    {
        let b = id.bytes[i];
        out.push(b);
        i = i + 1;
    }
    proof {
        assert(out@ =~= id.bytes@.subrange(12, UNIVERSAL_ID_LEN as int));
    }
    out
}

} // verus!
