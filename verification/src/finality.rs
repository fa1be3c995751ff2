//! Reorg-aware block-finality resolution.
//!
//! A connector instance carries one immutable reorg policy. Resolving
//! it yields the height that is safe to read: the raw head, the head
//! less a fixed lag (saturating at zero), or the node's own finalized
//! checkpoint. The resolved value must fit the framework's 32-bit
//! height; a native height beyond that range is a `HeightOverflow`.

use vstd::prelude::*;

use crate::errors::HyperlaneTronError;

verus! {

/// Rule for computing the finalized height.
#[derive(Clone, Copy, Debug, PartialEq, Eq, Structural)]
pub enum ReorgPolicy {
    /// Read at the chain's current head height.
    AtHead,
    /// Read a fixed number of blocks behind the head.
    FixedLag(u32),
    /// Read at the node's dedicated finalized checkpoint.
    NamedTag,
}

/// The height a policy selects, before the 32-bit range check: the raw
/// head, `max(0, head - lag)`, or the node's own finalized height.
pub open spec fn effective_height(policy: ReorgPolicy, head: u64, named_finalized: u64) -> int {
    match policy {
        ReorgPolicy::AtHead => head as int,
        ReorgPolicy::FixedLag(lag) => if head >= lag { head - lag } else { 0 },
        ReorgPolicy::NamedTag => named_finalized as int,
    }
}

/// Head height lowered by a fixed lag, saturating at zero.
pub fn lagged_height(head: u64, lag: u32) -> (r: u64)
    ensures
        r == effective_height(ReorgPolicy::FixedLag(lag), head, 0),
        lag >= head ==> r == 0,
{
    if head >= lag as u64 {
        head - lag as u64
    } else {
        0
    }
}

/// Narrow a native height to the framework's 32-bit representation,
/// failing with `HeightOverflow` when it does not fit.
pub fn clamp_height(h: u64) -> (r: Result<u32, HyperlaneTronError>)
    ensures
        r is Ok <==> h <= u32::MAX,
        r matches Ok(v) ==> v == h,
        r matches Err(e) ==> e == HyperlaneTronError::HeightOverflow,
{
    if h <= u32::MAX as u64 {
        Ok(h as u32)
    } else {
        Err(HyperlaneTronError::HeightOverflow)
    }
}

/// Compute the "safe to read" height for a policy from the observed
/// head height and the node's reported finalized height. Never
/// underflows; fails only when the selected height exceeds the 32-bit
/// range.
pub fn resolve_finalized_height(
    policy: &ReorgPolicy,
    head: u64,
    named_finalized: u64,
) -> (r: Result<u32, HyperlaneTronError>)
    ensures
        r is Ok <==> effective_height(*policy, head, named_finalized) <= u32::MAX,
        r matches Ok(v) ==> v == effective_height(*policy, head, named_finalized),
        r matches Err(e) ==> e == HyperlaneTronError::HeightOverflow,
{
    match policy {
        ReorgPolicy::AtHead => clamp_height(head),
        ReorgPolicy::FixedLag(lag) => clamp_height(lagged_height(head, *lag)),
        ReorgPolicy::NamedTag => clamp_height(named_finalized),
    }
}

/// A fixed-lag policy always resolves to `max(0, head - lag)`, and to
/// zero whenever the lag reaches the head.
pub proof fn lemma_fixed_lag_resolution(head: u64, lag: u32)
    ensures
        effective_height(ReorgPolicy::FixedLag(lag), head, 0) == if head >= lag {
            head - lag
        } else {
            0
        },
        lag >= head ==> effective_height(ReorgPolicy::FixedLag(lag), head, 0) == 0,
        effective_height(ReorgPolicy::FixedLag(lag), head, 0) >= 0,
{
}

} // verus!
