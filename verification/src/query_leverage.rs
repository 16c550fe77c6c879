//! The queries that the chain's leverage module answers.

use vstd::prelude::*;

verus! {

/// The number the chain assigns to the query for the amount an account has borrowed of a token.
pub const ASSIGNED_QUERY_BORROWED: u16 = 1;

/// The number the chain assigns to the query for the tokens registered with the leverage module.
pub const ASSIGNED_QUERY_REGISTERED_TOKENS: u16 = 3;

/// The number the chain assigns to the query for the parameters of the leverage module.
pub const ASSIGNED_QUERY_LEVERAGE_PARAMETERS: u16 = 4;

/// The number the chain assigns to the query for the value of what an account has borrowed of a
/// token.
pub const ASSIGNED_QUERY_BORROWED_VALUE: u16 = 5;

/// The number the chain assigns to the query for the amount an account has supplied of a token.
pub const ASSIGNED_QUERY_SUPPLIED: u16 = 6;

/// The number the chain assigns to the query for the value of what an account has supplied of a
/// token.
pub const ASSIGNED_QUERY_SUPPLIED_VALUE: u16 = 7;

/// The number the chain assigns to the query for the amount of a token that is available to borrow.
pub const ASSIGNED_QUERY_AVAILABLE_BORROW: u16 = 8;

/// The number the chain assigns to the query for the yearly rate paid for borrowing a token.
pub const ASSIGNED_QUERY_BORROW_APY: u16 = 9;

/// The number the chain assigns to the query for the yearly rate earned for supplying a token.
pub const ASSIGNED_QUERY_SUPPLY_APY: u16 = 10;

/// The number the chain assigns to the query for the value of a token's market.
pub const ASSIGNED_QUERY_MARKET_SIZE: u16 = 11;

/// The number the chain assigns to the query for the size of a token's market in the token itself.
pub const ASSIGNED_QUERY_TOKEN_MARKET_SIZE: u16 = 12;

/// The number the chain assigns to the query for the amount of a token held in reserve.
pub const ASSIGNED_QUERY_RESERVE_AMOUNT: u16 = 13;

/// The number the chain assigns to the query for the amount an account has set as collateral of a
/// token.
pub const ASSIGNED_QUERY_COLLATERAL: u16 = 14;

/// The number the chain assigns to the query for the value of what an account has set as collateral
/// of a token.
pub const ASSIGNED_QUERY_COLLATERAL_VALUE: u16 = 15;

/// Asks for the amount an account has borrowed of a token.
#[derive(Clone, Debug, PartialEq)]
pub struct BorrowedParams {
    /// The account asked about.
    pub address: String,
    /// The token asked about.
    pub denom: String,
}

/// Asks for the tokens registered with the leverage module.
#[derive(Clone, Debug, PartialEq)]
pub struct RegisteredTokensParams {}

/// Asks for the parameters of the leverage module.
#[derive(Clone, Debug, PartialEq)]
pub struct LeverageParametersParams {}

/// Asks for the value of what an account has borrowed of a token.
#[derive(Clone, Debug, PartialEq)]
pub struct BorrowedValueParams {
    /// The account asked about.
    pub address: String,
    /// The token asked about.
    pub denom: String,
}

/// Asks for the amount an account has supplied of a token.
#[derive(Clone, Debug, PartialEq)]
pub struct SuppliedParams {
    /// The account asked about.
    pub address: String,
    /// The token asked about.
    pub denom: String,
}

/// Asks for the value of what an account has supplied of a token.
#[derive(Clone, Debug, PartialEq)]
pub struct SuppliedValueParams {
    /// The account asked about.
    pub address: String,
    /// The token asked about.
    pub denom: String,
}

/// Asks for the amount of a token that is available to borrow.
#[derive(Clone, Debug, PartialEq)]
pub struct AvailableBorrowParams {
    /// The token asked about.
    pub denom: String,
}

/// Asks for the yearly rate paid for borrowing a token.
#[derive(Clone, Debug, PartialEq)]
pub struct BorrowAPYParams {
    /// The token asked about.
    pub denom: String,
}

/// Asks for the yearly rate earned for supplying a token.
#[derive(Clone, Debug, PartialEq)]
pub struct SupplyAPYParams {
    /// The token asked about.
    pub denom: String,
}

/// Asks for the value of a token's market.
#[derive(Clone, Debug, PartialEq)]
pub struct MarketSizeParams {
    /// The token asked about.
    pub denom: String,
}

/// Asks for the size of a token's market in the token itself.
#[derive(Clone, Debug, PartialEq)]
pub struct TokenMarketSizeParams {
    /// The token asked about.
    pub denom: String,
}

/// Asks for the amount of a token held in reserve.
#[derive(Clone, Debug, PartialEq)]
pub struct ReserveAmountParams {
    /// The token asked about.
    pub denom: String,
}

/// Asks for the amount an account has set as collateral of a token.
#[derive(Clone, Debug, PartialEq)]
pub struct CollateralParams {
    /// The account asked about.
    pub address: String,
    /// The token asked about.
    pub denom: String,
}

/// Asks for the value of what an account has set as collateral of a token.
#[derive(Clone, Debug, PartialEq)]
pub struct CollateralValueParams {
    /// The account asked about.
    pub address: String,
    /// The token asked about.
    pub denom: String,
}

/// Every query of the leverage module, each with its parameters.
#[derive(Clone, Debug, PartialEq)]
pub enum UmeeQueryLeverage {
    /// Asks for the amount an account has borrowed of a token.
    Borrowed(BorrowedParams),
    /// Asks for the tokens registered with the leverage module.
    RegisteredTokens(RegisteredTokensParams),
    /// Asks for the parameters of the leverage module.
    LeverageParameters(LeverageParametersParams),
    /// Asks for the value of what an account has borrowed of a token.
    BorrowedValue(BorrowedValueParams),
    /// Asks for the amount an account has supplied of a token.
    Supplied(SuppliedParams),
    /// Asks for the value of what an account has supplied of a token.
    SuppliedValue(SuppliedValueParams),
    /// Asks for the amount of a token that is available to borrow.
    AvailableBorrow(AvailableBorrowParams),
    /// Asks for the yearly rate paid for borrowing a token.
    BorrowAPY(BorrowAPYParams),
    /// Asks for the yearly rate earned for supplying a token.
    SupplyAPY(SupplyAPYParams),
    /// Asks for the value of a token's market.
    MarketSize(MarketSizeParams),
    /// Asks for the size of a token's market in the token itself.
    TokenMarketSize(TokenMarketSizeParams),
    /// Asks for the amount of a token held in reserve.
    ReserveAmount(ReserveAmountParams),
    /// Asks for the amount an account has set as collateral of a token.
    Collateral(CollateralParams),
    /// Asks for the value of what an account has set as collateral of a token.
    CollateralValue(CollateralValueParams),
}

} // verus!
