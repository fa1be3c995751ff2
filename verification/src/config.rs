//! Connection configuration.

use vstd::prelude::*;

verus! {

/// Connection configuration: the node endpoint both transports share.
#[derive(Clone, Debug)]
pub struct ConnectionConf {
    /// Fully qualified endpoint to connect to.
    pub url: String,
}

} // verus!
