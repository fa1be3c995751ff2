//! The mailbox facade: framework capability methods over the mailbox
//! contract, composed from address translation, calldata building and
//! the submission path.
//!
//! Write methods demand a configured signer and fail fast with
//! `SignerUnavailable` before anything is sent. Read-path results
//! come back as chain-agnostic identifiers.

use vstd::prelude::*;

use crate::abi::{abi_encode_pair_of_bytes, abi_two_bytes, selector_for, selector_of};
use crate::address::{decodable, decode, decoded_native, TronAddress, UniversalId};
use crate::errors::HyperlaneTronError;
use crate::message::{encode_message, encoded_message, push_all, HyperlaneMessage, MESSAGE_HEADER_LEN};
use crate::finality::{effective_height, resolve_finalized_height, ReorgPolicy};
use crate::indexing::{
    dispatch_record_matches, dispatch_records_from_logs, dispatch_source_logs, record_drawn_from,
    sort_by_sequence, sorted_by_sequence, DispatchRecord, RawLog,
};
use crate::signer::Signer;
use crate::submission::{build_submission, PendingSubmission, SubmissionPhase};

verus! {

/// ABI signature of the mailbox's process function.
pub open spec fn process_signature() -> Seq<char> {
    "process(bytes,bytes)"@
}

/// The full process call payload: the four-byte selector, then the
/// message bytes and metadata as two ABI-encoded dynamic arguments.
pub open spec fn process_call_bytes(message: HyperlaneMessage, metadata: Seq<u8>) -> Seq<u8> {
    selector_of(process_signature()).add(abi_two_bytes(encoded_message(message), metadata))
}

/// Build the calldata for processing a message against its metadata.
pub fn process_calldata(message: &HyperlaneMessage, metadata: &Vec<u8>) -> (r: Vec<u8>)
    requires
        message.wf(),
        MESSAGE_HEADER_LEN + message.body@.len() <= 0x1000_0000,
        metadata@.len() <= 0x1000_0000,
    ensures
        r@ == process_call_bytes(*message, metadata@),
{
    let encoded = encode_message(message);
    let params = abi_encode_pair_of_bytes(&encoded, metadata);
    let mut out = selector_for("process(bytes,bytes)");
    push_all(&mut out, &params);
    out
}

/// A reference to a mailbox contract on the chain.
pub struct TronMailbox {
    /// Domain of the chain this mailbox lives on.
    pub domain: u32,
    /// The mailbox contract's native address.
    pub address: TronAddress,
    /// Signer for write methods; read-only connectors have none.
    pub signer: Option<Signer>,
}

impl TronMailbox {
    /// Bind a mailbox facade to a contract named by its universal
    /// identifier; the identifier must decode to a native address.
    pub fn new(domain: u32, address: &UniversalId, signer: Option<Signer>) -> (r: Result<
        TronMailbox,
        HyperlaneTronError,
    >)
        requires
            address.wf(),
        ensures
            r is Ok <==> decodable(address.bytes@),
            r matches Ok(m) ==> {
                &&& m.domain == domain
                &&& m.address.wf()
                &&& m.address.bytes@ == decoded_native(address.bytes@)
                &&& (m.signer is Some <==> signer is Some)
            },
            r matches Err(e) ==> e == HyperlaneTronError::InvalidAddressFormat,
    {
        match decode(address) {
            Ok(native) => Ok(TronMailbox { domain, address: native, signer }),
            Err(e) => Err(e),
        }
    }

    /// Whether this connector can sign write transactions.
    pub fn has_signer(&self) -> (r: bool)
        ensures
            r <==> self.signer is Some,
    {
        self.signer.is_some()
    }

    /// Validate that a recipient identifier names a native account
    /// before any ism query is made for it; a decode failure
    /// propagates, never a silent default.
    pub fn recipient_ism_target(&self, recipient: &UniversalId) -> (r: Result<
        TronAddress,
        HyperlaneTronError,
    >)
        requires
            recipient.wf(),
        ensures
            r is Ok <==> decodable(recipient.bytes@),
            r matches Ok(a) ==> a.wf() && a.bytes@ == decoded_native(recipient.bytes@),
            r matches Err(e) ==> e == HyperlaneTronError::InvalidAddressFormat,
    {
        decode(recipient)
    }

    /// Plan the submission that processes a message. Fails with
    /// `SignerUnavailable`, before any network call, exactly when the
    /// connector was built without a signer; otherwise the plan starts
    /// in `Built` with the process calldata, zero attached value and
    /// the caller's optional gas ceiling.
    pub fn process_plan(
        &self,
        message: &HyperlaneMessage,
        metadata: &Vec<u8>,
        energy_limit: Option<u64>,
    ) -> (r: Result<PendingSubmission, HyperlaneTronError>)
        requires
            message.wf(),
            MESSAGE_HEADER_LEN + message.body@.len() <= 0x1000_0000,
            metadata@.len() <= 0x1000_0000,
        ensures
            r is Err <==> self.signer is None,
            r matches Err(e) ==> e == HyperlaneTronError::SignerUnavailable,
            r matches Ok(p) ==> {
                &&& p.phase == SubmissionPhase::Built
                &&& p.caller.wf()
                &&& p.contract.bytes@ == self.address.bytes@
                &&& p.selector@ == selector_of(process_signature())
                &&& p.parameter@ == abi_two_bytes(encoded_message(*message), metadata@)
                &&& p.attached_value == 0
                &&& p.energy_limit == energy_limit
                &&& p.fee_limit is None
                &&& p.transaction_id is None
            },
    {
        let signer = match &self.signer {
            Some(s) => s,
            None => {
                return Err(HyperlaneTronError::SignerUnavailable);
            },
        };
        let caller = signer.native_address();
        let encoded = encode_message(message);
        let parameter = abi_encode_pair_of_bytes(&encoded, metadata);
        let selector = selector_for("process(bytes,bytes)");
        let contract = TronAddress { bytes: crate::message::copy_range(&self.address.bytes, 0, self.address.bytes.len()) };
        proof {
            assert(contract.bytes@ =~= self.address.bytes@);
        }
        Ok(build_submission(caller, contract, selector, parameter, energy_limit))
    }
}

/// A cost estimate for processing a message.
#[derive(Clone, Copy, Debug, PartialEq, Eq)]
pub struct TxCostEstimate {
    /// Resource-unit limit.
    pub gas_limit: u64,
    /// Price per resource unit.
    pub gas_price: u64,
    /// Second-layer limit where one applies.
    pub l2_gas_limit: Option<u64>,
}

impl TxCostEstimate {
    /// Cost figures for processing: all zero unconditionally, a
    /// placeholder until real fee accounting is integrated; callers
    /// must not read meaning into them.
    pub fn process_estimate() -> (r: TxCostEstimate)
        ensures
            r.gas_limit == 0,
            r.gas_price == 0,
            r.l2_gas_limit is None,
    {
        TxCostEstimate { gas_limit: 0u64, gas_price: 0u64, l2_gas_limit: None }
    }
}

/// Retrieves and normalizes dispatch event data for a mailbox.
pub struct TronMailboxIndexer {
    /// Domain of the chain being indexed.
    pub domain: u32,
    /// The mailbox contract's native address.
    pub address: TronAddress,
    /// Reorg policy fixed for this indexer instance.
    pub reorg_policy: ReorgPolicy,
}

impl TronMailboxIndexer {
    /// Bind an indexer to a mailbox named by its universal
    /// identifier, under one fixed reorg policy.
    pub fn new(domain: u32, address: &UniversalId, reorg_policy: ReorgPolicy) -> (r: Result<
        TronMailboxIndexer,
        HyperlaneTronError,
    >)
        requires
            address.wf(),
        ensures
            r is Ok <==> decodable(address.bytes@),
            r matches Ok(ix) ==> {
                &&& ix.domain == domain
                &&& ix.address.wf()
                &&& ix.address.bytes@ == decoded_native(address.bytes@)
                &&& ix.reorg_policy == reorg_policy
            },
            r matches Err(e) ==> e == HyperlaneTronError::InvalidAddressFormat,
    {
        match decode(address) {
            Ok(native) => Ok(TronMailboxIndexer { domain, address: native, reorg_policy }),
            Err(e) => Err(e),
        }
    }

    /// The "safe to read" height under this indexer's policy, from
    /// the observed head and the node's reported finalized height.
    pub fn finalized_block_number(&self, head: u64, named_finalized: u64) -> (r: Result<
        u32,
        HyperlaneTronError,
    >)
        ensures
            r is Ok <==> effective_height(self.reorg_policy, head, named_finalized) <= u32::MAX,
            r matches Ok(v) ==> v == effective_height(self.reorg_policy, head, named_finalized),
            r matches Err(e) ==> e == HyperlaneTronError::HeightOverflow,
    {
        resolve_finalized_height(&self.reorg_policy, head, named_finalized)
    }

    /// The 20-byte account hash of the indexed mailbox, as raw logs
    /// name their emitter.
    pub fn emitter_hash(&self) -> (r: Vec<u8>)
        requires
            self.address.wf(),
        ensures
            r@ == self.address.bytes@.subrange(1, 21),
    {
        crate::message::copy_range(&self.address.bytes, 1, 21)
    }

    /// Normalize a fetched batch of raw logs into dispatch records
    /// sorted by ascending message sequence number: logs from other
    /// contracts and undecodable logs are dropped, every kept record
    /// faithfully carries one kept log, and the batch is re-sorted
    /// because raw log order is no proxy for logical order. The batch
    /// may contain duplicates; they are kept, not deduplicated.
    pub fn dispatch_records_in_range(&self, logs: Vec<RawLog>) -> (r: Vec<DispatchRecord>)
        requires
            self.address.wf(),
        ensures
            sorted_by_sequence(r@),
            r@.len() == dispatch_source_logs(logs@, self.address.bytes@.subrange(1, 21)).len(),
            forall|k: int|
                0 <= k < r@.len() ==> record_drawn_from(
                    #[trigger] r@[k],
                    dispatch_source_logs(logs@, self.address.bytes@.subrange(1, 21)),
                ),
    {
        let target = self.emitter_hash();
        let mut records = dispatch_records_from_logs(logs, &target);
        let ghost v0 = records@;
        sort_by_sequence(&mut records);
        proof {
            broadcast use vstd::seq_lib::group_to_multiset_ensures;

            let src = dispatch_source_logs(logs@, self.address.bytes@.subrange(1, 21));
            assert forall|k: int| 0 <= k < records@.len() implies record_drawn_from(
                #[trigger] records@[k],
                src,
            ) by {
                assert(records@.to_multiset().count(records@[k]) > 0);
                assert(v0.to_multiset().count(records@[k]) > 0);
                assert(v0.contains(records@[k]));
                let j = choose|j: int| 0 <= j < v0.len() && v0[j] == records@[k];
                assert(v0.len() == src.len());
                assert(v0[j] == records@[k]);
                assert(dispatch_record_matches(v0[j], src[j]));
                assert(dispatch_record_matches(records@[k], src[j]));
            }
        }
        records
    }

    /// Pair the mailbox's intrinsic sequence count, read at the tip,
    /// with that tip height.
    pub fn latest_sequence_count_and_tip(&self, nonce_at_tip: u32, tip: u32) -> (r: (
        Option<u32>,
        u32,
    ))
        ensures
            r.0 == Some(nonce_at_tip),
            r.1 == tip,
    {
        (Some(nonce_at_tip), tip)
    }

    /// For delivery ids there is no intrinsic counter on chain: the
    /// sequence is reported absent — count unknown, never zero — and
    /// only the tip height is meaningful.
    pub fn delivery_sequence_count_and_tip(&self, tip: u32) -> (r: (Option<u32>, u32))
        ensures
            r.0 is None,
            r.1 == tip,
    {
        (None, tip)
    }
}

} // verus!
