//! The merkle-hook facade: checkpoint and tree-snapshot reads over
//! the merkle accumulator contract.
//!
//! The on-chain tree state is consumed, never mutated locally: the
//! snapshot is read-only transport of the branch words and the
//! populated-leaf count.

use vstd::prelude::*;

use crate::address::{
    decodable, decode, decoded_native, encode, encoded_id, TronAddress, UniversalId,
};
use crate::errors::HyperlaneTronError;
use crate::finality::{effective_height, resolve_finalized_height, ReorgPolicy};
use crate::indexing::{
    insertion_record_matches, insertion_records_from_logs, insertion_source_logs,
    InsertionRecord, RawLog,
};

verus! {

/// Number of branch slots in the incremental merkle accumulator.
pub const TREE_DEPTH: usize = 32;

/// A signed-over view of the accumulator at some height.
#[derive(Clone, Debug)]
pub struct Checkpoint {
    /// The merkle hook contract, as a universal identifier.
    pub merkle_tree_hook_address: UniversalId,
    /// Domain of the chain the mailbox lives on.
    pub mailbox_domain: u32,
    /// Root of the accumulator.
    pub root: Vec<u8>,
    /// Index of the latest inserted leaf.
    pub index: u32,
}

/// A fixed-capacity snapshot of the accumulator: one 32-byte word per
/// depth level, plus the populated-leaf count.
#[derive(Clone, Debug)]
pub struct MerkleSnapshot {
    /// Branch words, one per level.
    pub branch: Vec<Vec<u8>>,
    /// Number of populated leaves.
    pub count: u64,
}

impl MerkleSnapshot {
    /// Exactly one 32-byte word per level.
    pub open spec fn wf(self) -> bool {
        &&& self.branch@.len() == TREE_DEPTH
        &&& forall|k: int| 0 <= k < self.branch@.len() ==> #[trigger] self.branch@[k]@.len() == 32
    }
}

/// Shape-check the branch words and leaf count fetched from the
/// chain into a snapshot; a response of the wrong shape is a
/// malformed encoding, not a snapshot.
pub fn tree_snapshot(branch: Vec<Vec<u8>>, count: u64) -> (r: Result<
    MerkleSnapshot,
    HyperlaneTronError,
>)
    ensures
        r is Ok <==> {
            &&& branch@.len() == TREE_DEPTH
            &&& (forall|k: int| 0 <= k < branch@.len() ==> #[trigger] branch@[k]@.len() == 32)
            &&& count <= u32::MAX
        },
        r matches Ok(s) ==> s.wf() && s.branch == branch && s.count == count,
        r matches Err(e) ==> e == HyperlaneTronError::AbiEncodingError,
{
    if branch.len() != TREE_DEPTH {
        return Err(HyperlaneTronError::AbiEncodingError);
    }
    if count > u32::MAX as u64 {
        return Err(HyperlaneTronError::AbiEncodingError);
    }
    let mut k: usize = 0;
    while k < TREE_DEPTH
        invariant
            branch@.len() == TREE_DEPTH,
            k <= TREE_DEPTH,
            forall|j: int| 0 <= j < k ==> #[trigger] branch@[j]@.len() == 32,
        decreases TREE_DEPTH - k,
    {
        if branch[k].len() != 32 {
            return Err(HyperlaneTronError::AbiEncodingError);
        }
        k = k + 1;
    }
    Ok(MerkleSnapshot { branch, count })
}

/// A reference to a merkle hook contract on the chain.
pub struct TronMerkleTreeHook {
    /// Domain of the chain this hook lives on.
    pub domain: u32,
    /// The hook contract's native address.
    pub address: TronAddress,
}

impl TronMerkleTreeHook {
    /// Bind a hook facade to a contract named by its universal
    /// identifier; the identifier must decode to a native address.
    pub fn new(domain: u32, address: &UniversalId) -> (r: Result<
        TronMerkleTreeHook,
        HyperlaneTronError,
    >)
        requires
            address.wf(),
        ensures
            r is Ok <==> decodable(address.bytes@),
            r matches Ok(h) ==> {
                &&& h.domain == domain
                &&& h.address.wf()
                &&& h.address.bytes@ == decoded_native(address.bytes@)
            },
            r matches Err(e) ==> e == HyperlaneTronError::InvalidAddressFormat,
    {
        match decode(address) {
            Ok(native) => Ok(TronMerkleTreeHook { domain, address: native }),
            Err(e) => Err(e),
        }
    }

    /// Assemble the framework checkpoint from the root and index the
    /// contract returned: this hook's identity, this chain's domain,
    /// and the fetched pair unchanged.
    pub fn latest_checkpoint(&self, root: Vec<u8>, index: u32) -> (r: Checkpoint)
        requires
            self.address.wf(),
            root@.len() == 32,
        ensures
            r.merkle_tree_hook_address.bytes@ == encoded_id(self.address.bytes@),
            r.mailbox_domain == self.domain,
            r.root == root,
            r.index == index,
    {
        let id = encode(&self.address);
        Checkpoint { merkle_tree_hook_address: id, mailbox_domain: self.domain, root, index }
    }
}

/// Retrieves and normalizes insertion event data for a merkle hook.
pub struct TronMerkleTreeHookIndexer {
    /// Domain of the chain being indexed.
    pub domain: u32,
    /// The hook contract's native address.
    pub address: TronAddress,
    /// Reorg policy fixed for this indexer instance.
    pub reorg_policy: ReorgPolicy,
}

impl TronMerkleTreeHookIndexer {
    /// Bind an indexer to a hook named by its universal identifier,
    /// under one fixed reorg policy.
    pub fn new(domain: u32, address: &UniversalId, reorg_policy: ReorgPolicy) -> (r: Result<
        TronMerkleTreeHookIndexer,
        HyperlaneTronError,
    >)
        requires
            address.wf(),
        ensures
            r is Ok <==> decodable(address.bytes@),
            r matches Ok(ix) ==> {
                &&& ix.domain == domain
                &&& ix.address.wf()
                &&& ix.address.bytes@ == decoded_native(address.bytes@)
                &&& ix.reorg_policy == reorg_policy
            },
            r matches Err(e) ==> e == HyperlaneTronError::InvalidAddressFormat,
    {
        match decode(address) {
            Ok(native) => Ok(
                TronMerkleTreeHookIndexer { domain, address: native, reorg_policy },
            ),
            Err(e) => Err(e),
        }
    }

    /// The "safe to read" height under this indexer's policy, from
    /// the observed head and the node's reported finalized height.
    pub fn finalized_block_number(&self, head: u64, named_finalized: u64) -> (r: Result<
        u32,
        HyperlaneTronError,
    >)
        ensures
            r is Ok <==> effective_height(self.reorg_policy, head, named_finalized) <= u32::MAX,
            r matches Ok(v) ==> v == effective_height(self.reorg_policy, head, named_finalized),
            r matches Err(e) ==> e == HyperlaneTronError::HeightOverflow,
    {
        resolve_finalized_height(&self.reorg_policy, head, named_finalized)
    }

    /// The 20-byte account hash of the indexed hook, as raw logs
    /// name their emitter.
    pub fn emitter_hash(&self) -> (r: Vec<u8>)
        requires
            self.address.wf(),
        ensures
            r@ == self.address.bytes@.subrange(1, 21),
    {
        crate::message::copy_range(&self.address.bytes, 1, 21)
    }

    /// Normalize a fetched batch of raw logs into insertion records:
    /// logs from other contracts and malformed data fields are
    /// dropped, every kept record faithfully carries its log, and the
    /// original log order is kept.
    pub fn insertion_records(&self, logs: Vec<RawLog>) -> (r: Vec<InsertionRecord>)
        requires
            self.address.wf(),
        ensures
            r@.len() == insertion_source_logs(logs@, self.address.bytes@.subrange(1, 21)).len(),
            forall|k: int|
                0 <= k < r@.len() ==> insertion_record_matches(
                    #[trigger] r@[k],
                    insertion_source_logs(logs@, self.address.bytes@.subrange(1, 21))[k],
                ),
    {
        let target = self.emitter_hash();
        insertion_records_from_logs(logs, &target)
    }

    /// Pair the tree's intrinsic leaf count, read at the tip, with
    /// that tip height.
    pub fn latest_sequence_count_and_tip(&self, count_at_tip: u32, tip: u32) -> (r: (
        Option<u32>,
        u32,
    ))
        ensures
            r.0 == Some(count_at_tip),
            r.1 == tip,
    {
        (Some(count_at_tip), tip)
    }
}

} // verus!
