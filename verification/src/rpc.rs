//! Decisions around the low-level node gateway.
//!
//! The gateway itself only forwards requests over the shared endpoint
//! and every round-trip is fallible plumbing; what is verified here is
//! how its answers are read.

use vstd::prelude::*;

use crate::errors::HyperlaneTronError;

verus! {

/// Whether an account has contract code deployed: a non-empty code
/// blob.
pub fn contract_present(code: &Vec<u8>) -> (r: bool)
    ensures
        r <==> code@.len() > 0,
{
    code.len() > 0
}

/// Read the dynamic fee-per-energy-unit out of the chain-parameter
/// lookup. A missing parameter is a transport-shaped failure: the node
/// answered without the field the caller needs.
pub fn energy_fee_from_param(param: Option<i64>) -> (r: Result<u64, HyperlaneTronError>)
    ensures
        param matches Some(v) ==> r == Ok::<u64, HyperlaneTronError>(v as u64),
        param is None ==> r == Err::<u64, HyperlaneTronError>(HyperlaneTronError::Transport),
{
    match param {
        Some(v) => Ok(v as u64),
        None => Err(HyperlaneTronError::Transport),
    }
}

} // verus!
