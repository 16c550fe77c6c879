//! What passes between the contract and the chain that runs it.

use vstd::prelude::*;
use crate::chain_query::StructUmeeQuery;
use crate::coin::Coin;

verus! {

/// Who sent a message to the contract, and the funds sent with it.
#[derive(Clone, Debug, PartialEq)]
pub struct MessageInfo {
    pub sender: String,
    pub funds: Vec<Coin>,
}

/// A query that the contract passes on to the chain.
#[derive(Clone, Debug, PartialEq)]
pub enum QueryRequest {
    /// A query to the leverage or oracle module.
    Custom(StructUmeeQuery),
    /// A query to any other module of the chain, in its wire form.
    Encoded(Vec<u8>),
}

/// How the chain dealt with a query that the contract passed on.
#[derive(Clone, Debug, PartialEq)]
pub enum QuerierOutcome {
    /// The query could not be put into its wire form.
    Unserializable { reason: String },
    /// The chain could not hand the query to a module.
    SystemError { reason: String },
    /// The module refused the query.
    ContractError { reason: String },
    /// The module answered.
    Reply { data: Vec<u8> },
}

} // verus!
