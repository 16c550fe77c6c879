//! A proxy contract between callers and the Umee chain's native leverage and
//! oracle modules.
//!
//! The contract keeps one record, the address of its owner, and otherwise
//! routes requests: every execute message becomes the chain message that
//! carries it, every query becomes the chain query that carries it, and the
//! chain's answer is handed back.

pub mod chain_msg;
pub mod chain_query;
pub mod coin;
pub mod contract;
pub mod error;
pub mod host;
pub mod msg;
pub mod msg_leverage;
pub mod query_leverage;
pub mod query_oracle;
pub mod response;
pub mod state;
