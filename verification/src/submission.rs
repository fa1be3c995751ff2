//! The transaction-submission protocol: a single forward path
//! `Built -> FeeEstimated (optional) -> Signed -> Broadcast ->
//! Confirmed | TimedOutUnconfirmed`, with no backward transitions.
//!
//! Confirmation failure is not an error: it degrades to an outcome
//! with `executed == false`, so the framework can decide whether to
//! resubmit. The resource-cost fields of every outcome are zero until
//! real fee accounting is wired in; callers must not read meaning into
//! them.

use vstd::prelude::*;

use crate::address::TronAddress;
use crate::message::copy_range;

verus! {

/// Where a submission stands on its forward path.
#[derive(Clone, Copy, Debug, PartialEq, Eq, Structural)]
pub enum SubmissionPhase {
    /// The call descriptor is assembled.
    Built,
    /// A fee budget was computed from the caller's energy ceiling.
    FeeEstimated,
    /// The native transaction carries the signature.
    Signed,
    /// The network accepted the raw transaction and returned its id.
    Broadcast,
    /// The confirmation poll saw the transaction included.
    Confirmed,
    /// The confirmation poll gave up; the chain may still include it.
    TimedOutUnconfirmed,
}

/// Normalized result of a submitted transaction.
#[derive(Clone, Debug)]
pub struct TxOutcome {
    /// Identifier the broadcast returned.
    pub transaction_id: Vec<u8>,
    /// Whether the confirmation poll saw the transaction included.
    pub executed: bool,
    /// Resource units consumed; zero until real accounting exists.
    pub gas_used: u64,
    /// Price per resource unit; zero until real accounting exists.
    pub gas_price: u64,
}

/// What an outcome must report for a broadcast transaction: its id,
/// the confirmation verdict, and zeroed cost fields.
pub open spec fn outcome_reports(o: TxOutcome, id: Seq<u8>, confirmed: bool) -> bool {
    &&& o.transaction_id@ == id
    &&& o.executed == confirmed
    &&& o.gas_used == 0
    &&& o.gas_price == 0
}

/// A contract-invoking submission moving along the forward path.
#[derive(Debug)]
pub struct PendingSubmission {
    /// Where the submission stands.
    pub phase: SubmissionPhase,
    /// Identity the call is made as.
    pub caller: TronAddress,
    /// The contract being invoked.
    pub contract: TronAddress,
    /// Four-byte function selector.
    pub selector: Vec<u8>,
    /// ABI-encoded call parameters.
    pub parameter: Vec<u8>,
    /// Value attached to the call; zero for these call kinds.
    pub attached_value: u64,
    /// The caller's optional energy ceiling.
    pub energy_limit: Option<u64>,
    /// Fee budget handed to the build step, once estimated.
    pub fee_limit: Option<u64>,
    /// Transaction identifier, once broadcast.
    pub transaction_id: Option<Vec<u8>>,
}

/// Assemble a call descriptor; the submission starts in `Built` with
/// nothing attached, no fee budget and no transaction id.
pub fn build_submission(
    caller: TronAddress,
    contract: TronAddress,
    selector: Vec<u8>,
    parameter: Vec<u8>,
    energy_limit: Option<u64>,
) -> (r: PendingSubmission)
    ensures
        r.phase == SubmissionPhase::Built,
        r.caller == caller,
        r.contract == contract,
        r.selector == selector,
        r.parameter == parameter,
        r.attached_value == 0,
        r.energy_limit == energy_limit,
        r.fee_limit is None,
        r.transaction_id is None,
{
    PendingSubmission {
        phase: SubmissionPhase::Built,
        caller,
        contract,
        selector,
        parameter,
        attached_value: 0u64,
        energy_limit,
        fee_limit: None,
        transaction_id: None,
    }
}

/// Record the fee budget: the energy ceiling times the current
/// fee-per-unit. Only taken when the caller supplied a ceiling; with
/// no ceiling the chain's default fee handling applies and this step
/// is skipped.
pub fn apply_fee_estimate(sub: &mut PendingSubmission, energy_price: u64)
    requires
        old(sub).phase == SubmissionPhase::Built,
        old(sub).energy_limit matches Some(limit) && limit * energy_price <= u64::MAX,
    ensures
        final(sub).phase == SubmissionPhase::FeeEstimated,
        final(sub).fee_limit matches Some(budget) && old(sub).energy_limit matches Some(limit)
            && budget == limit * energy_price,
        final(sub).caller == old(sub).caller,
        final(sub).contract == old(sub).contract,
        final(sub).selector == old(sub).selector,
        final(sub).parameter == old(sub).parameter,
        final(sub).attached_value == old(sub).attached_value,
        final(sub).energy_limit == old(sub).energy_limit,
        final(sub).transaction_id == old(sub).transaction_id,
{
    match sub.energy_limit {
        Some(limit) => {
            sub.fee_limit = Some(limit * energy_price);
            sub.phase = SubmissionPhase::FeeEstimated;
        },
        None => unreached(),
    }
}

/// Record that the native transaction now carries the signature.
pub fn mark_signed(sub: &mut PendingSubmission)
    requires
        old(sub).phase == SubmissionPhase::Built || old(sub).phase
            == SubmissionPhase::FeeEstimated,
    ensures
        final(sub).phase == SubmissionPhase::Signed,
        final(sub).caller == old(sub).caller,
        final(sub).contract == old(sub).contract,
        final(sub).selector == old(sub).selector,
        final(sub).parameter == old(sub).parameter,
        final(sub).attached_value == old(sub).attached_value,
        final(sub).energy_limit == old(sub).energy_limit,
        final(sub).fee_limit == old(sub).fee_limit,
        final(sub).transaction_id == old(sub).transaction_id,
{
    sub.phase = SubmissionPhase::Signed;
}

/// Record the identifier the broadcast returned.
pub fn mark_broadcast(sub: &mut PendingSubmission, transaction_id: Vec<u8>)
    requires
        old(sub).phase == SubmissionPhase::Signed,
    ensures
        final(sub).phase == SubmissionPhase::Broadcast,
        final(sub).transaction_id matches Some(id) && id@ == transaction_id@,
        final(sub).caller == old(sub).caller,
        final(sub).contract == old(sub).contract,
        final(sub).selector == old(sub).selector,
        final(sub).parameter == old(sub).parameter,
        final(sub).attached_value == old(sub).attached_value,
        final(sub).energy_limit == old(sub).energy_limit,
        final(sub).fee_limit == old(sub).fee_limit,
{
    sub.transaction_id = Some(transaction_id);
    sub.phase = SubmissionPhase::Broadcast;
}

/// Close the submission with the confirmation verdict. A timed-out or
/// failed poll is not escalated: it yields an outcome with
/// `executed == false` and the phase `TimedOutUnconfirmed`, so the
/// caller re-checks chain state instead of treating this as failure.
/// Cost fields are always zero, true accounting being unavailable.
pub fn finalize(sub: &mut PendingSubmission, confirmed: bool) -> (r: TxOutcome)
    requires
        old(sub).phase == SubmissionPhase::Broadcast,
        old(sub).transaction_id is Some,
    ensures
        old(sub).transaction_id matches Some(id) && outcome_reports(r, id@, confirmed),
        confirmed ==> final(sub).phase == SubmissionPhase::Confirmed,
        !confirmed ==> final(sub).phase == SubmissionPhase::TimedOutUnconfirmed,
        final(sub).transaction_id == old(sub).transaction_id,
{
    let id_copy: Vec<u8> = match &sub.transaction_id {
        Some(id) => copy_range(id, 0, id.len()),
        None => unreached(),
    };
    if confirmed {
        sub.phase = SubmissionPhase::Confirmed;
    } else {
        sub.phase = SubmissionPhase::TimedOutUnconfirmed;
    }
    proof {
        let id = old(sub).transaction_id->Some_0;
        assert(id_copy@ =~= id@);
    }
    TxOutcome { transaction_id: id_copy, executed: confirmed, gas_used: 0u64, gas_price: 0u64 }
}

/// An unconfirmed terminal outcome is a valid result, not an error:
/// it reports the transaction id, `executed == false`, and zeroed
/// cost fields, leaving the resubmission decision to the framework.
pub proof fn lemma_unconfirmed_outcome_is_benign(o: TxOutcome, id: Seq<u8>)
    requires
        outcome_reports(o, id, false),
    ensures
        !o.executed,
        o.gas_used == 0,
        o.gas_price == 0,
        o.transaction_id@ == id,
{
}

} // verus!
