//! The queries that the chain's oracle module answers.

use vstd::prelude::*;

verus! {

/// The number the chain assigns to the query for the exchange rate of a token.
pub const ASSIGNED_QUERY_EXCHANGE_RATES: u16 = 2;

/// Asks for the exchange rate of a token.
#[derive(Clone, Debug, PartialEq)]
pub struct ExchangeRatesParams {
    /// The token asked about.
    pub denom: String,
}

/// Every query of the oracle module, each with its parameters.
#[derive(Clone, Debug, PartialEq)]
pub enum UmeeQueryOracle {
    /// Asks for the exchange rate of a token.
    ExchangeRates(ExchangeRatesParams),
}

} // verus!
