//! The messages that the contract takes and the answers that it gives.

use vstd::prelude::*;
use crate::chain_msg::{StructUmeeMsg, UmeeMsg};
use crate::chain_query::{ReplyKind, StructUmeeQuery, UmeeQuery};
use crate::host::QueryRequest;
use crate::msg_leverage::SupplyParams;
use crate::query_leverage::{
    BorrowedParams, BorrowedValueParams, LeverageParametersParams, RegisteredTokensParams,
};
use crate::query_oracle::ExchangeRatesParams;

verus! {

/// Sets the contract up. It has nothing to say: the sender becomes the owner.
#[derive(Clone, Debug, PartialEq)]
pub struct InstantiateMsg {}

/// What the contract can be told to do.
#[derive(Clone, Debug, PartialEq)]
pub enum ExecuteMsg {
    /// Makes `new_owner` the owner. Only the owner may send it.
    ChangeOwner { new_owner: String },
    /// Sends a message to the chain as the record given.
    Chain(StructUmeeMsg),
    /// Sends a message to one of the chain's modules.
    Umee(UmeeMsg),
    /// Supplies coins to the leverage module.
    Supply(SupplyParams),
}

/// What the contract can be asked.
#[derive(Clone, Debug, PartialEq)]
pub enum QueryMsg {
    /// Asks for the contract's owner.
    GetOwner {},
    /// Asks the chain with the request given.
    Chain(QueryRequest),
    /// Asks one of the chain's modules.
    Umee(UmeeQuery),
    /// Asks the leverage module for the amount an account has borrowed.
    Borrowed(BorrowedParams),
    /// Asks the oracle module for the exchange rate of a token.
    ExchangeRates(ExchangeRatesParams),
    /// Asks the leverage module for its registered tokens.
    RegisteredTokens(RegisteredTokensParams),
    /// Asks the leverage module for its parameters.
    LeverageParameters(LeverageParametersParams),
    /// Asks the leverage module for the value an account has borrowed.
    BorrowedValue(BorrowedValueParams),
}

/// The answer to [`QueryMsg::GetOwner`].
#[derive(Clone, Debug, PartialEq)]
pub struct OwnerResponse {
    pub owner: String,
}

/// A query for the chain, and what its answer will hold.
#[derive(Clone, Debug, PartialEq)]
pub struct ChainQuery {
    pub request: QueryRequest,
    pub reply: ReplyKind,
}

impl ChainQuery {
    /// How `query` is put to the chain: as the record that carries it, with
    /// an answer of the query's own kind.
    pub open spec fn of(query: UmeeQuery) -> ChainQuery {
        ChainQuery {
            request: QueryRequest::Custom(StructUmeeQuery::of(query)),
            reply: query.reply_kind(),
        }
    }
}

/// What a query to the contract comes to.
#[derive(Clone, Debug, PartialEq)]
pub enum QueryAction {
    /// The contract answers from its own store.
    Answer(OwnerResponse),
    /// The chain is to be asked, and its answer handed back.
    Ask(ChainQuery),
}

} // verus!
