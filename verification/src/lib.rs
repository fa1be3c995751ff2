//! Chain connector core for a Tron-style network: address translation,
//! reorg-aware finality resolution, event-log normalization, and the
//! transaction-submission state machine, each with a verified contract.

pub mod abi;
pub mod address;
pub mod config;
pub mod errors;
pub mod finality;
pub mod hexstr;
pub mod indexing;
pub mod mailbox;
pub mod merkle_tree_hook;
pub mod message;
pub mod rpc;
pub mod signer;
pub mod submission;
pub mod validator_announce;
