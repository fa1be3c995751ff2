//! The framework's message and its wire format.
//!
//! A message travels as a fixed header followed by the body: one
//! version byte, then nonce, origin domain, sender, destination domain
//! and recipient at fixed offsets, integers big-endian. The connector
//! re-encodes messages for the process call and decodes the raw bytes
//! carried in dispatch event logs.

use vstd::prelude::*;

use crate::address::{UniversalId, UNIVERSAL_ID_LEN};
use crate::errors::HyperlaneTronError;

verus! {

/// Byte length of the fixed message header that precedes the body.
pub const MESSAGE_HEADER_LEN: usize = 77;

/// A chain-agnostic message as the framework shapes it.
#[derive(Clone, Debug)]
pub struct HyperlaneMessage {
    /// Format version byte.
    pub version: u8,
    /// Monotonic sequence number assigned at dispatch.
    pub nonce: u32,
    /// Domain of the origin chain.
    pub origin_domain: u32,
    /// Sender identity on the origin chain.
    pub sender: UniversalId,
    /// Domain of the destination chain.
    pub destination_domain: u32,
    /// Recipient identity on the destination chain.
    pub recipient: UniversalId,
    /// Opaque message body.
    pub body: Vec<u8>,
}

impl HyperlaneMessage {
    /// Both identifiers carry their full 32 bytes.
    pub open spec fn wf(self) -> bool {
        self.sender.wf() && self.recipient.wf()
    }
}

/// Big-endian bytes of a 32-bit integer.
pub open spec fn be32(x: u32) -> Seq<u8> {
    seq![(x >> 24) as u8, (x >> 16) as u8, (x >> 8) as u8, x as u8]
}

/// The 32-bit integer read big-endian from four bytes of `s` starting
/// at `off`.
pub open spec fn be32_at(s: Seq<u8>, off: int) -> u32 {
    (((s[off] as u32) << 24) | ((s[off + 1] as u32) << 16) | ((s[off + 2] as u32) << 8) | (
    s[off + 3] as u32)) as u32
}

/// The wire bytes of a message: header fields at fixed offsets, then
/// the body.
pub open spec fn encoded_message(m: HyperlaneMessage) -> Seq<u8> {
    seq![m.version].add(be32(m.nonce)).add(be32(m.origin_domain)).add(m.sender.bytes@).add(
        be32(m.destination_domain),
    ).add(m.recipient.bytes@).add(m.body@)
}

/// Append the big-endian bytes of `x`.
fn push_be32(out: &mut Vec<u8>, x: u32)
    ensures
        final(out)@ == old(out)@.add(be32(x)),
{
    out.push((x >> 24) as u8);
    out.push((x >> 16) as u8);
    out.push((x >> 8) as u8);
    out.push(x as u8);
    proof {
        assert(final(out)@ =~= old(out)@.add(be32(x)));
    }
}

/// Append a copy of `src`.
pub(crate) fn push_all(out: &mut Vec<u8>, src: &Vec<u8>)
    ensures
        final(out)@ == old(out)@.add(src@),
{
    let mut i: usize = 0;
    while i < src.len()
        invariant
            i <= src@.len(),
            out@.len() == old(out)@.len() + i,
            out@ == old(out)@.add(src@.subrange(0, i as int)),
        decreases src@.len() - i,
    {
        let b = src[i];
        out.push(b);
        i = i + 1;
        proof {
            assert(out@ =~= old(out)@.add(src@.subrange(0, i as int)));
        }
    }
    proof {
        assert(src@.subrange(0, src@.len() as int) =~= src@);
    }
}

/// Serialize a message into its wire bytes.
pub fn encode_message(m: &HyperlaneMessage) -> (r: Vec<u8>)
    requires
        m.wf(),
    ensures
        r@ == encoded_message(*m),
        r@.len() == MESSAGE_HEADER_LEN + m.body@.len(),
{
    let mut out: Vec<u8> = Vec::new();
    out.push(m.version);
    push_be32(&mut out, m.nonce);
    push_be32(&mut out, m.origin_domain);
    push_all(&mut out, &m.sender.bytes);
    push_be32(&mut out, m.destination_domain);
    push_all(&mut out, &m.recipient.bytes);
    push_all(&mut out, &m.body);
    proof {
        assert(out@ =~= encoded_message(*m));
    }
    out
}

/// Read the 32-bit big-endian integer at `off`.
pub(crate) fn read_be32(raw: &Vec<u8>, off: usize) -> (r: u32)
    requires
        off + 4 <= raw@.len(),
    ensures
        r == be32_at(raw@, off as int),
{
    let n = raw.len();
    assert(off + 4 <= n);
    ((raw[off] as u32) << 24) | ((raw[off + 1] as u32) << 16) | ((raw[off + 2] as u32) << 8) | (
    raw[off + 3] as u32)
}

/// Copy `raw[from..to]`.
pub(crate) fn copy_range(raw: &Vec<u8>, from: usize, to: usize) -> (r: Vec<u8>)
    requires
        from <= to <= raw@.len(),
    ensures
        r@ == raw@.subrange(from as int, to as int),
{
    let mut out: Vec<u8> = Vec::new();
    let mut i: usize = from;
    while i < to
        invariant
            from <= i <= to <= raw@.len(),
            out@.len() == i - from,
            forall|k: int| 0 <= k < i - from ==> out@[k] == raw@[from + k],
        decreases to - i,
    {
        let b = raw[i];
        out.push(b);
        i = i + 1;
    }
    proof {
        assert(out@ =~= raw@.subrange(from as int, to as int));
    }
    out
}

/// Parse wire bytes into a message. Succeeds exactly when the bytes
/// cover the fixed header; everything after the header is the body.
pub fn decode_message(raw: &Vec<u8>) -> (r: Result<HyperlaneMessage, HyperlaneTronError>)
    ensures
        r is Ok <==> raw@.len() >= MESSAGE_HEADER_LEN,
        r matches Ok(m) ==> {
            &&& m.wf()
            &&& m.version == raw@[0]
            &&& m.nonce == be32_at(raw@, 1)
            &&& m.origin_domain == be32_at(raw@, 5)
            &&& m.sender.bytes@ == raw@.subrange(9, 41)
            &&& m.destination_domain == be32_at(raw@, 41)
            &&& m.recipient.bytes@ == raw@.subrange(45, 77)
            &&& m.body@ == raw@.subrange(77, raw@.len() as int)
        },
        r matches Err(e) ==> e == HyperlaneTronError::AbiEncodingError,
{
    if raw.len() < MESSAGE_HEADER_LEN {
        return Err(HyperlaneTronError::AbiEncodingError);
    }
    let version = raw[0];
    let nonce = read_be32(raw, 1);
    let origin_domain = read_be32(raw, 5);
    let sender = UniversalId { bytes: copy_range(raw, 9, 41) };
    let destination_domain = read_be32(raw, 41);
    let recipient = UniversalId { bytes: copy_range(raw, 45, 77) };
    let body = copy_range(raw, 77, raw.len());
    Ok(
        HyperlaneMessage {
            version,
            nonce,
            origin_domain,
            sender,
            destination_domain,
            recipient,
            body,
        },
    )
}

/// Serialization and parsing agree: the wire bytes of a well-formed
/// message parse back to the very same fields.
pub proof fn lemma_message_round_trip(m: HyperlaneMessage)
    requires
        m.wf(),
    ensures
        encoded_message(m).len() == MESSAGE_HEADER_LEN + m.body@.len(),
        encoded_message(m)[0] == m.version,
        be32_at(encoded_message(m), 1) == m.nonce,
        be32_at(encoded_message(m), 5) == m.origin_domain,
        encoded_message(m).subrange(9, 41) == m.sender.bytes@,
        be32_at(encoded_message(m), 41) == m.destination_domain,
        encoded_message(m).subrange(45, 77) == m.recipient.bytes@,
        encoded_message(m).subrange(77, encoded_message(m).len() as int) == m.body@,
{
    let e = encoded_message(m);
    lemma_be32_round_trip(m.nonce);
    lemma_be32_round_trip(m.origin_domain);
    lemma_be32_round_trip(m.destination_domain);
    assert(e.subrange(1, 5) =~= be32(m.nonce));
    assert(e.subrange(5, 9) =~= be32(m.origin_domain));
    assert(e.subrange(41, 45) =~= be32(m.destination_domain));
    assert(be32_at(e, 1) == be32_at(be32(m.nonce), 0)) by {
        assert(e[1] == be32(m.nonce)[0] && e[2] == be32(m.nonce)[1] && e[3] == be32(m.nonce)[2]
            && e[4] == be32(m.nonce)[3]);
    }
    assert(be32_at(e, 5) == be32_at(be32(m.origin_domain), 0)) by {
        assert(e[5] == be32(m.origin_domain)[0] && e[6] == be32(m.origin_domain)[1] && e[7]
            == be32(m.origin_domain)[2] && e[8] == be32(m.origin_domain)[3]);
    }
    assert(be32_at(e, 41) == be32_at(be32(m.destination_domain), 0)) by {
        assert(e[41] == be32(m.destination_domain)[0] && e[42] == be32(m.destination_domain)[1]
            && e[43] == be32(m.destination_domain)[2] && e[44] == be32(m.destination_domain)[3]);
    }
    assert(e.subrange(9, 41) =~= m.sender.bytes@);
    assert(e.subrange(45, 77) =~= m.recipient.bytes@);
    assert(e.subrange(77, e.len() as int) =~= m.body@);
}

/// Reading four big-endian bytes back gives the integer they came from.
pub proof fn lemma_be32_round_trip(x: u32)
    ensures
        be32_at(be32(x), 0) == x,
{
    assert((((((x >> 24) as u8) as u32) << 24) | ((((x >> 16) as u8) as u32) << 16) | ((((x
        >> 8) as u8) as u32) << 8) | ((x as u8) as u32)) as u32 == x) by (bit_vector);
}

/// Writing back the integer read from four bytes reproduces the bytes.
pub proof fn lemma_be32_inverse(s: Seq<u8>, off: int)
    requires
        0 <= off,
        off + 4 <= s.len(),
    ensures
        be32(be32_at(s, off)) == s.subrange(off, off + 4),
{
    let b0 = s[off];
    let b1 = s[off + 1];
    let b2 = s[off + 2];
    let b3 = s[off + 3];
    let x = be32_at(s, off);
    assert((x >> 24) as u8 == b0 && (x >> 16) as u8 == b1 && (x >> 8) as u8 == b2 && x as u8
        == b3) by (bit_vector)
        requires
            x == (((b0 as u32) << 24) | ((b1 as u32) << 16) | ((b2 as u32) << 8) | (
            b3 as u32)) as u32,
    ;
    assert(be32(x) =~= s.subrange(off, off + 4));
}

/// Fields read from wire bytes serialize back to those very bytes.
pub proof fn lemma_decoded_message_reencodes(raw: Seq<u8>, m: HyperlaneMessage)
    requires
        raw.len() >= MESSAGE_HEADER_LEN,
        m.version == raw[0],
        m.nonce == be32_at(raw, 1),
        m.origin_domain == be32_at(raw, 5),
        m.sender.bytes@ == raw.subrange(9, 41),
        m.destination_domain == be32_at(raw, 41),
        m.recipient.bytes@ == raw.subrange(45, 77),
        m.body@ == raw.subrange(77, raw.len() as int),
    ensures
        encoded_message(m) == raw,
{
    lemma_be32_inverse(raw, 1);
    lemma_be32_inverse(raw, 5);
    lemma_be32_inverse(raw, 41);
    assert(encoded_message(m) =~= raw);
}

} // verus!
