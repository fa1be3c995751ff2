//! Error taxonomy of the connector.
//!
//! Every failure surfaced to the framework is one of these kinds. The
//! connector never panics on an expected failure path: each verified
//! function either rules the input out in its `requires` or returns one
//! of these values.

use vstd::prelude::*;

verus! {

/// Failure kinds specific to this chain connector.
#[derive(Clone, Copy, Debug, PartialEq, Eq, Structural)]
pub enum HyperlaneTronError {
    /// A network or RPC round-trip failed, or the node answered with a
    /// shape the caller could not use.
    Transport,
    /// Address translation rejected the input.
    InvalidAddressFormat,
    /// A write method was invoked on a connector built without a signer.
    SignerUnavailable,
    /// The key operation itself failed while signing.
    SignatureFailure,
    /// A native block height does not fit the framework's 32-bit height.
    HeightOverflow,
    /// A call payload or response was malformed.
    AbiEncodingError,
}

} // verus!
