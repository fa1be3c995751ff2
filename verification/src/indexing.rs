//! Event-log indexing: normalizing raw receipt logs into the
//! framework's indexed-record shape, with the ordering and filtering
//! rules the framework relies on.
//!
//! Dispatch events must come back sorted by the message's own sequence
//! number, not by log position, because several dispatches can land in
//! one block. A by-transaction-hash fetch must keep only the logs the
//! target contract emitted, discarding logs from other contracts that
//! share the receipt.

use vstd::prelude::*;

use crate::abi::{abi_bytes_payload, abi_bytes_wf, abi_decode_single_bytes};
use crate::address::UniversalId;
use crate::errors::HyperlaneTronError;
use crate::message::{
    be32_at, decode_message, encoded_message, HyperlaneMessage, MESSAGE_HEADER_LEN,
};

verus! {

/// Where a log sits on chain: block, transaction, and position inside
/// the transaction.
#[derive(Clone, Debug)]
pub struct LogPosition {
    /// Height of the block that holds the log.
    pub block_number: u64,
    /// Hash of that block.
    pub block_hash: Vec<u8>,
    /// Hash of the transaction that emitted the log.
    pub transaction_hash: Vec<u8>,
    /// Index of the log within the transaction.
    pub log_index: u64,
}

/// Field-wise agreement of two log positions.
pub open spec fn position_matches(a: LogPosition, b: LogPosition) -> bool {
    &&& a.block_number == b.block_number
    &&& a.block_hash@ == b.block_hash@
    &&& a.transaction_hash@ == b.transaction_hash@
    &&& a.log_index == b.log_index
}

/// A raw receipt log: the emitting contract's 20-byte account hash,
/// the undecoded data field, and the log's position.
#[derive(Clone, Debug)]
pub struct RawLog {
    /// Account hash of the contract that emitted the log.
    pub address: Vec<u8>,
    /// The log's data field, still ABI-encoded.
    pub data: Vec<u8>,
    /// Where the log sits on chain.
    pub position: LogPosition,
}

/// A decoded dispatch event paired with its log position.
#[derive(Clone, Debug)]
pub struct DispatchRecord {
    /// The dispatched message.
    pub message: HyperlaneMessage,
    /// Where the dispatch log sits on chain.
    pub position: LogPosition,
}

/// Byte-wise equality of two buffers.
pub fn bytes_eq(a: &Vec<u8>, b: &Vec<u8>) -> (r: bool)
    ensures
        r <==> a@ == b@,
{
    if a.len() != b.len() {
        proof {
            assert(a@.len() != b@.len());
        }
        return false;
    }
    let mut i: usize = 0;
    while i < a.len()
        invariant
            a@.len() == b@.len(),
            i <= a@.len(),
            forall|k: int| 0 <= k < i ==> a@[k] == b@[k],
        decreases a@.len() - i,
    {
        if a[i] != b[i] {
            return false;
        }
        i = i + 1;
    }
    proof {
        assert(a@ =~= b@);
    }
    true
}

/// The subsequence of `logs` emitted by `target`, in original order.
pub open spec fn kept_logs(logs: Seq<RawLog>, target: Seq<u8>) -> Seq<RawLog>
    decreases logs.len(),
{
    if logs.len() == 0 {
        Seq::empty()
    } else {
        let rest = kept_logs(logs.drop_last(), target);
        if logs.last().address@ == target {
            rest.push(logs.last())
        } else {
            rest
        }
    }
}

/// Every log that the address filter keeps was emitted by the target.
pub proof fn lemma_kept_logs_emitter(logs: Seq<RawLog>, target: Seq<u8>)
    ensures
        forall|k: int|
            0 <= k < kept_logs(logs, target).len() ==> #[trigger] kept_logs(logs, target)[k].address@
                == target,
    decreases logs.len(),
{
    if logs.len() > 0 {
        lemma_kept_logs_emitter(logs.drop_last(), target);
        let rest = kept_logs(logs.drop_last(), target);
        let whole = kept_logs(logs, target);
        if logs.last().address@ == target {
            assert(whole == rest.push(logs.last()));
            assert forall|k: int| 0 <= k < whole.len() implies #[trigger] whole[k].address@
                == target by {
                if k < rest.len() {
                    assert(whole[k] == rest[k]);
                } else {
                    assert(whole[k] == logs.last());
                }
            }
        } else {
            assert(whole == rest);
        }
    }
}

/// Keep only the logs emitted by `target`, in their original order;
/// logs from other contracts interleaved in the same receipt are
/// discarded.
pub fn filter_logs_by_address(logs: Vec<RawLog>, target: &Vec<u8>) -> (r: Vec<RawLog>)
    ensures
        r@ == kept_logs(logs@, target@),
        forall|k: int| 0 <= k < r@.len() ==> #[trigger] r@[k].address@ == target@,
{
    let ghost orig = logs@;
    let mut rest = logs;
    let mut out: Vec<RawLog> = Vec::new();
    while rest.len() > 0
        invariant
            rest@.len() <= orig.len(),
            rest@ == orig.subrange(orig.len() - rest@.len(), orig.len() as int),
            out@ == kept_logs(orig.subrange(0, orig.len() - rest@.len()), target@),
        decreases rest@.len(),
    {
        let ghost k = orig.len() - rest@.len();
        let ghost pre = orig.subrange(0, k as int);
        let l = rest.remove(0);
        proof {
            assert(l == orig[k as int]);
            assert(rest@ =~= orig.subrange(orig.len() - rest@.len(), orig.len() as int));
        }
        let keep = bytes_eq(&l.address, target);
        if keep {
            out.push(l);
        }
        proof {
            let s1 = orig.subrange(0, k + 1);
            assert(s1.drop_last() =~= pre);
            assert(s1.last() == orig[k as int]);
            assert(out@ == kept_logs(s1, target@));
        }
    }
    proof {
        assert(orig.subrange(0, orig.len() as int) =~= orig);
        lemma_kept_logs_emitter(orig, target@);
    }
    out
}

/// Whether a log's data field decodes into a dispatched message: a
/// well-formed single-bytes encoding whose payload covers the fixed
/// message header.
pub open spec fn dispatch_log_decodes(l: RawLog) -> bool {
    abi_bytes_wf(l.data@) && abi_bytes_payload(l.data@).len() >= MESSAGE_HEADER_LEN
}

/// The logs a dispatch fetch keeps: emitted by the target contract and
/// carrying a decodable message, in original order.
pub open spec fn dispatch_source_logs(logs: Seq<RawLog>, target: Seq<u8>) -> Seq<RawLog>
    decreases logs.len(),
{
    if logs.len() == 0 {
        Seq::empty()
    } else {
        let rest = dispatch_source_logs(logs.drop_last(), target);
        if logs.last().address@ == target && dispatch_log_decodes(logs.last()) {
            rest.push(logs.last())
        } else {
            rest
        }
    }
}

/// A record faithfully carries a log: its message serializes back to
/// the log's payload bytes and it sits at the log's position.
pub open spec fn dispatch_record_matches(rec: DispatchRecord, l: RawLog) -> bool {
    &&& rec.message.wf()
    &&& encoded_message(rec.message) == abi_bytes_payload(l.data@)
    &&& position_matches(rec.position, l.position)
}

/// Decode the receipt logs of one transaction into dispatch records:
/// logs from other contracts are discarded, the rest are ABI-decoded
/// and parsed; a log whose payload does not parse is dropped. Records
/// keep the original log order.
pub fn dispatch_records_from_logs(logs: Vec<RawLog>, target: &Vec<u8>) -> (r: Vec<DispatchRecord>)
    ensures
        r@.len() == dispatch_source_logs(logs@, target@).len(),
        forall|k: int|
            0 <= k < r@.len() ==> dispatch_record_matches(
                #[trigger] r@[k],
                dispatch_source_logs(logs@, target@)[k],
            ),
{
    let ghost orig = logs@;
    let mut rest = logs;
    let mut out: Vec<DispatchRecord> = Vec::new();
    while rest.len() > 0
        invariant
            rest@.len() <= orig.len(),
            rest@ == orig.subrange(orig.len() - rest@.len(), orig.len() as int),
            out@.len() == dispatch_source_logs(
                orig.subrange(0, orig.len() - rest@.len()),
                target@,
            ).len(),
            forall|k: int|
                0 <= k < out@.len() ==> dispatch_record_matches(
                    #[trigger] out@[k],
                    dispatch_source_logs(orig.subrange(0, orig.len() - rest@.len()), target@)[k],
                ),
        decreases rest@.len(),
    {
        let ghost k = orig.len() - rest@.len();
        let ghost pre = orig.subrange(0, k as int);
        let l = rest.remove(0);
        proof {
            assert(l == orig[k as int]);
            assert(rest@ =~= orig.subrange(orig.len() - rest@.len(), orig.len() as int));
        }
        if bytes_eq(&l.address, target) {
            match abi_decode_single_bytes(&l.data) {
                Some(payload) => {
                    match decode_message(&payload) {
                        Ok(m) => {
                            proof {
                                crate::message::lemma_decoded_message_reencodes(payload@, m);
                            }
                            out.push(DispatchRecord { message: m, position: l.position });
                        },
                        Err(_) => {},
                    }
                },
                None => {},
            }
        }
        proof {
            let s1 = orig.subrange(0, k + 1);
            assert(s1.drop_last() =~= pre);
            assert(s1.last() == orig[k as int]);
            let src = dispatch_source_logs(s1, target@);
            let presrc = dispatch_source_logs(pre, target@);
            assert forall|j: int| 0 <= j < out@.len() implies dispatch_record_matches(
                #[trigger] out@[j],
                src[j],
            ) by {
                if j < presrc.len() {
                    assert(src[j] == presrc[j]);
                } else {
                    assert(src[j] == orig[k as int]);
                }
            }
        }
    }
    proof {
        assert(orig.subrange(0, orig.len() as int) =~= orig);
    }
    out
}

/// A merkle-accumulator insertion event: which leaf slot a message
/// identifier landed in.
#[derive(Clone, Debug)]
pub struct MerkleTreeInsertion {
    /// Zero-based index of the populated leaf.
    pub leaf_index: u32,
    /// Identifier of the inserted message.
    pub message_id: UniversalId,
}

/// An insertion event paired with its log position.
#[derive(Clone, Debug)]
pub struct InsertionRecord {
    /// The decoded insertion.
    pub insertion: MerkleTreeInsertion,
    /// Where the insertion log sits on chain.
    pub position: LogPosition,
}

/// Whether a log's data field carries an insertion event: two static
/// words, a 32-byte identifier and a 32-bit index that fits its word.
pub open spec fn insertion_data_wf(d: Seq<u8>) -> bool {
    d.len() == 64 && (forall|i: int| 32 <= i < 60 ==> d[i] == 0)
}

/// Decode the 64-byte data field of an insertion event: the message
/// identifier word, then the leaf index right-aligned in its word.
pub fn decode_insertion(data: &Vec<u8>) -> (r: Result<MerkleTreeInsertion, HyperlaneTronError>)
    ensures
        r is Ok <==> insertion_data_wf(data@),
        r matches Ok(ins) ==> {
            &&& ins.message_id.wf()
            &&& ins.message_id.bytes@ == data@.subrange(0, 32)
            &&& ins.leaf_index == be32_at(data@, 60)
        },
        r matches Err(e) ==> e == HyperlaneTronError::AbiEncodingError,
{
    match crate::abi::decode_word_and_u32(data) {
        Ok((word, leaf_index)) => Ok(
            MerkleTreeInsertion { leaf_index, message_id: UniversalId { bytes: word } },
        ),
        Err(e) => Err(e),
    }
}

/// The logs an insertion fetch keeps: emitted by the target contract
/// and carrying a well-formed insertion event, in original order.
pub open spec fn insertion_source_logs(logs: Seq<RawLog>, target: Seq<u8>) -> Seq<RawLog>
    decreases logs.len(),
{
    if logs.len() == 0 {
        Seq::empty()
    } else {
        let rest = insertion_source_logs(logs.drop_last(), target);
        if logs.last().address@ == target && insertion_data_wf(logs.last().data@) {
            rest.push(logs.last())
        } else {
            rest
        }
    }
}

/// A record faithfully carries an insertion log: identifier and leaf
/// index read from the data words, at the log's position.
pub open spec fn insertion_record_matches(rec: InsertionRecord, l: RawLog) -> bool {
    &&& rec.insertion.message_id.wf()
    &&& rec.insertion.message_id.bytes@ == l.data@.subrange(0, 32)
    &&& rec.insertion.leaf_index == be32_at(l.data@, 60)
    &&& position_matches(rec.position, l.position)
}

/// Decode the receipt logs of one transaction into insertion records:
/// logs from other contracts are discarded, the rest are decoded; a
/// malformed data field drops its log. Records keep the original log
/// order.
pub fn insertion_records_from_logs(logs: Vec<RawLog>, target: &Vec<u8>) -> (r: Vec<
    InsertionRecord,
>)
    ensures
        r@.len() == insertion_source_logs(logs@, target@).len(),
        forall|k: int|
            0 <= k < r@.len() ==> insertion_record_matches(
                #[trigger] r@[k],
                insertion_source_logs(logs@, target@)[k],
            ),
{
    let ghost orig = logs@;
    let mut rest = logs;
    let mut out: Vec<InsertionRecord> = Vec::new();
    while rest.len() > 0
        invariant
            rest@.len() <= orig.len(),
            rest@ == orig.subrange(orig.len() - rest@.len(), orig.len() as int),
            out@.len() == insertion_source_logs(
                orig.subrange(0, orig.len() - rest@.len()),
                target@,
            ).len(),
            forall|k: int|
                0 <= k < out@.len() ==> insertion_record_matches(
                    #[trigger] out@[k],
                    insertion_source_logs(orig.subrange(0, orig.len() - rest@.len()), target@)[k],
                ),
        decreases rest@.len(),
    {
        let ghost k = orig.len() - rest@.len();
        let ghost pre = orig.subrange(0, k as int);
        let l = rest.remove(0);
        proof {
            assert(l == orig[k as int]);
            assert(rest@ =~= orig.subrange(orig.len() - rest@.len(), orig.len() as int));
        }
        if bytes_eq(&l.address, target) {
            match decode_insertion(&l.data) {
                Ok(ins) => {
                    out.push(InsertionRecord { insertion: ins, position: l.position });
                },
                Err(_) => {},
            }
        }
        proof {
            let s1 = orig.subrange(0, k + 1);
            assert(s1.drop_last() =~= pre);
            assert(s1.last() == orig[k as int]);
            let src = insertion_source_logs(s1, target@);
            let presrc = insertion_source_logs(pre, target@);
            assert forall|j: int| 0 <= j < out@.len() implies insertion_record_matches(
                #[trigger] out@[j],
                src[j],
            ) by {
                if j < presrc.len() {
                    assert(src[j] == presrc[j]);
                } else {
                    assert(src[j] == orig[k as int]);
                }
            }
        }
    }
    proof {
        assert(orig.subrange(0, orig.len() as int) =~= orig);
    }
    out
}

/// Whether a record faithfully carries some log of `src`.
pub open spec fn record_drawn_from(rec: DispatchRecord, src: Seq<RawLog>) -> bool {
    exists|j: int| 0 <= j < src.len() && dispatch_record_matches(rec, src[j])
}

/// Records in ascending order of the message's sequence number.
pub open spec fn sorted_by_sequence(s: Seq<DispatchRecord>) -> bool {
    forall|i: int, j: int|
        0 <= i < j < s.len() ==> #[trigger] s[i].message.nonce <= #[trigger] s[j].message.nonce
}

/// Sort dispatch records by ascending message sequence number. Raw log
/// order within a block is no proxy for logical order, so a fetched
/// batch is re-sorted before it is handed to the framework; the batch
/// keeps exactly the same records.
pub fn sort_by_sequence(v: &mut Vec<DispatchRecord>)
    ensures
        sorted_by_sequence(final(v)@),
        final(v)@.to_multiset() == old(v)@.to_multiset(),
        final(v)@.len() == old(v)@.len(),
{
    if v.len() < 2 {
        return ;
    }
    let mut i: usize = 1;
    while i < v.len()
        invariant
            1 <= i <= v@.len(),
            v@.len() == old(v)@.len(),
            v@.len() >= 2,
            sorted_by_sequence(v@.subrange(0, i as int)),
            v@.to_multiset() == old(v)@.to_multiset(),
        decreases v@.len() - i,
    {
        let key = v[i].message.nonce;
        let mut p: usize = i;
        while p > 0 && v[p - 1].message.nonce > key
            invariant
                p <= i < v@.len(),
                v@.len() == old(v)@.len(),
                v@.len() >= 2,
                sorted_by_sequence(v@.subrange(0, i as int)),
                v@.to_multiset() == old(v)@.to_multiset(),
                key == v@[i as int].message.nonce,
                forall|k: int| p <= k < i ==> #[trigger] v@[k].message.nonce > key,
            decreases p,
        {
            p = p - 1;
        }
        if p < i {
            let ghost s0 = v@;
            let x = v.remove(i);
            v.insert(p, x);
            proof {
                broadcast use vstd::seq_lib::group_to_multiset_ensures;

                let s2 = v@;
                assert(x == s0[i as int]);
                assert(s2 == s0.remove(i as int).insert(p as int, x));
                assert forall|k: int| 0 <= k < s2.len() implies s2[k] == (if k < p {
                    s0[k]
                } else if k == p {
                    x
                } else if k <= i {
                    s0[k - 1]
                } else {
                    s0[k]
                }) by {
                    assert(s2 =~= s0.remove(i as int).insert(p as int, x));
                }
                assert forall|a: int, b: int| 0 <= a < b < i + 1 implies s2[a].message.nonce
                    <= s2[b].message.nonce by {
                    let pre = s0.subrange(0, i as int);
                    assert(forall|k: int| 0 <= k < i ==> s0[k] == pre[k]);
                    if a == p {
                        assert(s2[a].message.nonce == key);
                    } else if b == p {
                        assert(s2[b].message.nonce == key);
                        assert(p > 0 && s0[p - 1].message.nonce <= key);
                        assert(s2[a] == s0[a] && a <= p - 1);
                    }
                }
                assert(sorted_by_sequence(s2.subrange(0, i + 1)));
                assert(s0.remove(i as int).to_multiset() == s0.to_multiset().remove(x));
                assert(s2.to_multiset() == s0.remove(i as int).to_multiset().insert(x));
                assert(s0.contains(x));
                assert(s0.to_multiset().count(x) > 0);
                assert(s0.to_multiset().remove(x).insert(x) =~= s0.to_multiset());
            }
        } else {
            proof {
                let pre = v@.subrange(0, i as int);
                assert forall|a: int, b: int| 0 <= a < b < i + 1 implies v@[a].message.nonce
                    <= v@[b].message.nonce by {
                    assert(forall|k: int| 0 <= k < i ==> v@[k] == pre[k]);
                    if b < i {
                        assert(pre[a].message.nonce <= pre[b].message.nonce);
                    } else {
                        assert(v@[i - 1].message.nonce <= key);
                        if a < i - 1 {
                            assert(pre[a].message.nonce <= pre[i - 1].message.nonce);
                        }
                    }
                }
                assert(sorted_by_sequence(v@.subrange(0, i + 1)));
            }
        }
        i = i + 1;
    }
    proof {
        assert(v@.subrange(0, v@.len() as int) =~= v@);
    }
}

} // verus!
