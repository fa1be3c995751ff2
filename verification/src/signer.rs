//! Key material and signing.
//!
//! A signer owns a keypair handle, read-only after construction;
//! signing is a pure function of key and payload. The key operations
//! themselves live in the signing crate behind trusted wrappers; the
//! connector's decisions around them — when signing is owed, what a
//! key failure surfaces as — are verified.

use vstd::prelude::*;

use crate::address::TronAddress;
use crate::errors::HyperlaneTronError;
use crate::submission::{PendingSubmission, SubmissionPhase};

verus! {

/// The signing crate's keypair: public and private key, held opaque.
#[verifier::external_type_specification]
#[verifier::external_body]
pub struct ExKeypair(heliosphere_signer::keypair::Keypair);

/// The node's native transaction envelope, held opaque; only the
/// signing crate reads and extends it.
#[verifier::external_type_specification]
#[verifier::external_body]
pub struct ExTransaction(heliosphere_core::transaction::Transaction);

/// Whether a byte string is accepted as a private scalar; a fixed
/// function of the bytes alone.
pub uninterp spec fn key_accepted(key: Seq<u8>) -> bool;

/// Relies on `SigningKey::from_slice` (k256) and
/// `Keypair::from_signing_key` (heliosphere-signer): acceptance
/// depends on the bytes alone, and slices shorter than 24 or longer
/// than 32 bytes are always rejected.
#[verifier::external_body]
fn keypair_from_key_bytes(bytes: &[u8]) -> (r: Option<heliosphere_signer::keypair::Keypair>)
    ensures
        r is Some <==> key_accepted(bytes@),
        bytes@.len() < 24 ==> r is None,
        bytes@.len() > 32 ==> r is None,
{
    match heliosphere_signer::k256::ecdsa::SigningKey::from_slice(bytes) {
        Ok(signing_key) => Some(
            heliosphere_signer::keypair::Keypair::from_signing_key(signing_key),
        ),
        Err(_) => None,
    }
}

/// Relies on `Signer::address` (heliosphere-signer): the derived
/// native address is the `0x41` prefix followed by 20 hash bytes.
#[verifier::external_body]
fn keypair_native_address(kp: &heliosphere_signer::keypair::Keypair) -> (r: Vec<u8>)
    ensures
        r@.len() == 21,
        r@[0] == 0x41,
{
    let addr = <heliosphere_signer::keypair::Keypair as heliosphere_signer::signer::Signer>::address(
        kp,
    );
    addr.as_bytes().to_vec()
}

/// Relies on `Signer::address` and `Address::as_base58`
/// (heliosphere-signer, heliosphere-core): the checked base58 text of
/// the derived address, never empty.
#[verifier::external_body]
fn keypair_base58_address(kp: &heliosphere_signer::keypair::Keypair) -> (r: String)
    ensures
        r@.len() > 0,
{
    let addr = <heliosphere_signer::keypair::Keypair as heliosphere_signer::signer::Signer>::address(
        kp,
    );
    addr.as_base58()
}

/// Relies on `Signer::sign_transaction` (heliosphere-signer): signs
/// the transaction's id hash and appends the signature to the
/// envelope; fails only when the key operation fails.
#[verifier::external_body]
fn sign_with_keypair(
    kp: &heliosphere_signer::keypair::Keypair,
    tx: &mut heliosphere_core::transaction::Transaction,
) -> (r: Result<(), ()>) {
    match <heliosphere_signer::keypair::Keypair as heliosphere_signer::signer::Signer>::sign_transaction(
        kp,
        tx,
    ) {
        Ok(()) => Ok(()),
        Err(_) => Err(()),
    }
}

/// Signer for the chain: a keypair handle, read-only after
/// construction.
pub struct Signer {
    keypair: heliosphere_signer::keypair::Keypair,
}

impl Signer {
    /// Build a signer from raw private-key bytes; rejected bytes
    /// surface as a signature failure.
    pub fn from_bytes(bytes: &[u8]) -> (r: Result<Signer, HyperlaneTronError>)
        ensures
            r is Ok <==> key_accepted(bytes@),
            r matches Err(e) ==> e == HyperlaneTronError::SignatureFailure,
    {
        match keypair_from_key_bytes(bytes) {
            Some(keypair) => Ok(Signer { keypair }),
            None => Err(HyperlaneTronError::SignatureFailure),
        }
    }

    /// The signer's account in the chain's text encoding.
    pub fn address(&self) -> (r: String)
        ensures
            r@.len() > 0,
    {
        keypair_base58_address(&self.keypair)
    }

    /// The signer's account as a native address.
    pub fn native_address(&self) -> (r: TronAddress)
        ensures
            r.wf(),
    {
        let bytes = keypair_native_address(&self.keypair);
        TronAddress { bytes }
    }
}

/// Sign the native transaction for a submission and advance it to
/// `Signed`. A key failure surfaces as `SignatureFailure` and leaves
/// the submission where it stood.
pub fn sign_submission(
    signer: &Signer,
    tx: &mut heliosphere_core::transaction::Transaction,
    sub: &mut PendingSubmission,
) -> (r: Result<(), HyperlaneTronError>)
    requires
        old(sub).phase == SubmissionPhase::Built || old(sub).phase
            == SubmissionPhase::FeeEstimated,
    ensures
        r is Ok ==> final(sub).phase == SubmissionPhase::Signed,
        r matches Err(e) ==> e == HyperlaneTronError::SignatureFailure && *final(sub) == *old(
            sub,
        ),
        final(sub).caller == old(sub).caller,
        final(sub).contract == old(sub).contract,
        final(sub).selector == old(sub).selector,
        final(sub).parameter == old(sub).parameter,
        final(sub).attached_value == old(sub).attached_value,
        final(sub).energy_limit == old(sub).energy_limit,
        final(sub).fee_limit == old(sub).fee_limit,
        final(sub).transaction_id == old(sub).transaction_id,
{
    match sign_with_keypair(&signer.keypair, tx) {
        Ok(()) => {
            crate::submission::mark_signed(sub);
            Ok(())
        },
        Err(()) => Err(HyperlaneTronError::SignatureFailure),
    }
}

} // verus!
