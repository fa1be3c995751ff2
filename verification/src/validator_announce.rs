//! The validator-announce facade: listing announced storage
//! locations and planning an announce transaction.
//!
//! Announcing is a write method: it demands a configured signer and
//! fails fast with `SignerUnavailable` otherwise. The token-cost
//! query reports "unknown" unconditionally — an explicit
//! not-yet-implemented signal, deliberately not zero, which would
//! read as "free".

use vstd::prelude::*;

use crate::abi::{abi_address_two_bytes, abi_encode_address_and_pair_of_bytes, selector_for, selector_of};
use crate::address::{
    decodable, decode, decoded_native, evm_hash_from_universal, TronAddress, UniversalId,
    UNIVERSAL_ID_LEN,
};
use crate::errors::HyperlaneTronError;
use crate::message::push_all;
use crate::signer::Signer;
use crate::submission::{build_submission, PendingSubmission, SubmissionPhase};

verus! {

/// ABI signature of the announce function.
pub open spec fn announce_signature() -> Seq<char> {
    "announce(address,string,bytes)"@
}

/// A reference to a validator-announce contract on the chain.
pub struct TronValidatorAnnounce {
    /// Domain of the chain this contract lives on.
    pub domain: u32,
    /// The contract's native address.
    pub address: TronAddress,
    /// Signer for the announce write method; read-only connectors
    /// have none.
    pub signer: Option<Signer>,
}

impl TronValidatorAnnounce {
    /// Bind the facade to a contract named by its universal
    /// identifier; the identifier must decode to a native address.
    pub fn new(domain: u32, address: &UniversalId, signer: Option<Signer>) -> (r: Result<
        TronValidatorAnnounce,
        HyperlaneTronError,
    >)
        requires
            address.wf(),
        ensures
            r is Ok <==> decodable(address.bytes@),
            r matches Ok(v) ==> {
                &&& v.domain == domain
                &&& v.address.wf()
                &&& v.address.bytes@ == decoded_native(address.bytes@)
                &&& (v.signer is Some <==> signer is Some)
            },
            r matches Err(e) ==> e == HyperlaneTronError::InvalidAddressFormat,
    {
        match decode(address) {
            Ok(native) => Ok(TronValidatorAnnounce { domain, address: native, signer }),
            Err(e) => Err(e),
        }
    }

    /// Whether this connector can sign the announce transaction.
    pub fn has_signer(&self) -> (r: bool)
        ensures
            r <==> self.signer is Some,
    {
        self.signer.is_some()
    }

    /// Plan the announce submission. Fails with `SignerUnavailable`,
    /// before any network call, exactly when the connector was built
    /// without a signer; otherwise the plan starts in `Built` with
    /// the announce calldata and no energy ceiling.
    pub fn announce_plan(
        &self,
        validator: &Vec<u8>,
        storage_location: &Vec<u8>,
        signature: &Vec<u8>,
    ) -> (r: Result<PendingSubmission, HyperlaneTronError>)
        requires
            validator@.len() == 20,
            storage_location@.len() <= 0x1000_0000,
            signature@.len() <= 0x1000_0000,
        ensures
            r is Err <==> self.signer is None,
            r matches Err(e) ==> e == HyperlaneTronError::SignerUnavailable,
            r matches Ok(p) ==> {
                &&& p.phase == SubmissionPhase::Built
                &&& p.caller.wf()
                &&& p.contract.bytes@ == self.address.bytes@
                &&& p.selector@ == selector_of(announce_signature())
                &&& p.parameter@ == abi_address_two_bytes(
                    validator@,
                    storage_location@,
                    signature@,
                )
                &&& p.attached_value == 0
                &&& p.energy_limit is None
                &&& p.fee_limit is None
                &&& p.transaction_id is None
            },
    {
        let signer = match &self.signer {
            Some(s) => s,
            None => {
                return Err(HyperlaneTronError::SignerUnavailable);
            },
        };
        let caller = signer.native_address();
        let parameter = abi_encode_address_and_pair_of_bytes(
            validator,
            storage_location,
            signature,
        );
        let selector = selector_for("announce(address,string,bytes)");
        let contract = TronAddress {
            bytes: crate::message::copy_range(&self.address.bytes, 0, self.address.bytes.len()),
        };
        proof {
            assert(contract.bytes@ =~= self.address.bytes@);
        }
        Ok(build_submission(caller, contract, selector, parameter, None))
    }

    /// How many tokens an announcement needs: unknown, reported as
    /// absent rather than zero.
    pub fn announce_tokens_needed(&self) -> (r: Option<u64>)
        ensures
            r is None,
    {
        None
    }
}

/// Turn validator identities from universal identifiers into the
/// 20-byte account hashes the contract query takes, keeping order.
pub fn validators_to_evm(validators: &Vec<UniversalId>) -> (r: Vec<Vec<u8>>)
    requires
        forall|k: int| 0 <= k < validators@.len() ==> (#[trigger] validators@[k]).wf(),
    ensures
        r@.len() == validators@.len(),
        forall|k: int|
            0 <= k < r@.len() ==> #[trigger] r@[k]@ == validators@[k].bytes@.subrange(
                12,
                UNIVERSAL_ID_LEN as int,
            ),
{
    let mut out: Vec<Vec<u8>> = Vec::new();
    let mut i: usize = 0;
    while i < validators.len()
        invariant
            forall|k: int| 0 <= k < validators@.len() ==> (#[trigger] validators@[k]).wf(),
            i <= validators@.len(),
            out@.len() == i,
            forall|k: int|
                0 <= k < i ==> #[trigger] out@[k]@ == validators@[k].bytes@.subrange(
                    12,
                    UNIVERSAL_ID_LEN as int,
                ),
        decreases validators@.len() - i,
    {
        let hash = evm_hash_from_universal(&validators[i]);
        out.push(hash);
        i = i + 1;
    }
    out
}

} // verus!
