//! The wire form of a query to the chain's modules.
//!
//! The chain reads a query as one record: a number that names the query, and
//! one optional field of parameters for each query it knows. A record is
//! valid when the field that its number names is filled.

use vstd::prelude::*;
use crate::query_leverage::{
    AvailableBorrowParams, BorrowAPYParams, BorrowedParams, BorrowedValueParams, CollateralParams,
    CollateralValueParams, LeverageParametersParams, MarketSizeParams, RegisteredTokensParams,
    ReserveAmountParams, SuppliedParams, SuppliedValueParams, SupplyAPYParams,
    TokenMarketSizeParams, UmeeQueryLeverage, ASSIGNED_QUERY_AVAILABLE_BORROW,
    ASSIGNED_QUERY_BORROWED, ASSIGNED_QUERY_BORROWED_VALUE, ASSIGNED_QUERY_BORROW_APY,
    ASSIGNED_QUERY_COLLATERAL, ASSIGNED_QUERY_COLLATERAL_VALUE, ASSIGNED_QUERY_LEVERAGE_PARAMETERS,
    ASSIGNED_QUERY_MARKET_SIZE, ASSIGNED_QUERY_REGISTERED_TOKENS, ASSIGNED_QUERY_RESERVE_AMOUNT,
    ASSIGNED_QUERY_SUPPLIED, ASSIGNED_QUERY_SUPPLIED_VALUE, ASSIGNED_QUERY_SUPPLY_APY,
    ASSIGNED_QUERY_TOKEN_MARKET_SIZE,
};
use crate::query_oracle::{ExchangeRatesParams, UmeeQueryOracle, ASSIGNED_QUERY_EXCHANGE_RATES};

verus! {

/// A query to one of the chain's modules.
#[derive(Clone, Debug, PartialEq)]
pub enum UmeeQuery {
    /// A query to the leverage module.
    Leverage(UmeeQueryLeverage),
    /// A query to the oracle module.
    Oracle(UmeeQueryOracle),
}

/// What the chain's answer to a query holds.
#[derive(Clone, Copy, Debug, PartialEq, Eq)]
pub enum ReplyKind {
    /// Bytes that the contract hands back as they came.
    Binary,
    /// The amount an account has borrowed of a token.
    Borrowed,
    /// The exchange rate of a token.
    ExchangeRates,
    /// The tokens registered with the leverage module.
    RegisteredTokens,
    /// The parameters of the leverage module.
    LeverageParameters,
    /// The value of what an account has borrowed of a token.
    BorrowedValue,
    /// The amount an account has supplied of a token.
    Supplied,
    /// The value of what an account has supplied of a token.
    SuppliedValue,
    /// The amount of a token that is available to borrow.
    AvailableBorrow,
    /// The yearly rate paid for borrowing a token.
    BorrowAPY,
    /// The yearly rate earned for supplying a token.
    SupplyAPY,
    /// The value of a token's market.
    MarketSize,
    /// The size of a token's market in the token itself.
    TokenMarketSize,
    /// The amount of a token held in reserve.
    ReserveAmount,
    /// The amount an account has set as collateral of a token.
    Collateral,
    /// The value of what an account has set as collateral of a token.
    CollateralValue,
}

impl UmeeQuery {
    /// What the chain's answer to this query holds.
    pub open spec fn reply_kind(self) -> ReplyKind {
        match self {
            UmeeQuery::Leverage(UmeeQueryLeverage::Borrowed(_)) => ReplyKind::Borrowed,
            UmeeQuery::Oracle(UmeeQueryOracle::ExchangeRates(_)) => ReplyKind::ExchangeRates,
            UmeeQuery::Leverage(UmeeQueryLeverage::RegisteredTokens(_)) => {
                ReplyKind::RegisteredTokens
            },
            UmeeQuery::Leverage(UmeeQueryLeverage::LeverageParameters(_)) => {
                ReplyKind::LeverageParameters
            },
            UmeeQuery::Leverage(UmeeQueryLeverage::BorrowedValue(_)) => ReplyKind::BorrowedValue,
            UmeeQuery::Leverage(UmeeQueryLeverage::Supplied(_)) => ReplyKind::Supplied,
            UmeeQuery::Leverage(UmeeQueryLeverage::SuppliedValue(_)) => ReplyKind::SuppliedValue,
            UmeeQuery::Leverage(UmeeQueryLeverage::AvailableBorrow(_)) => {
                ReplyKind::AvailableBorrow
            },
            UmeeQuery::Leverage(UmeeQueryLeverage::BorrowAPY(_)) => ReplyKind::BorrowAPY,
            UmeeQuery::Leverage(UmeeQueryLeverage::SupplyAPY(_)) => ReplyKind::SupplyAPY,
            UmeeQuery::Leverage(UmeeQueryLeverage::MarketSize(_)) => ReplyKind::MarketSize,
            UmeeQuery::Leverage(UmeeQueryLeverage::TokenMarketSize(_)) => {
                ReplyKind::TokenMarketSize
            },
            UmeeQuery::Leverage(UmeeQueryLeverage::ReserveAmount(_)) => ReplyKind::ReserveAmount,
            UmeeQuery::Leverage(UmeeQueryLeverage::Collateral(_)) => ReplyKind::Collateral,
            UmeeQuery::Leverage(UmeeQueryLeverage::CollateralValue(_)) => {
                ReplyKind::CollateralValue
            },
        }
    }
}

/// A query as the chain reads it.
#[derive(Clone, Debug, PartialEq)]
pub struct StructUmeeQuery {
    /// The number that names the query.
    pub assigned_query: u16,
    /// The parameters of the query for the amount an account has borrowed of a token.
    pub borrowed: Option<BorrowedParams>,
    /// The parameters of the query for the exchange rate of a token.
    pub exchange_rates: Option<ExchangeRatesParams>,
    /// The parameters of the query for the tokens registered with the leverage module.
    pub registered_tokens: Option<RegisteredTokensParams>,
    /// The parameters of the query for the parameters of the leverage module.
    pub leverage_parameters: Option<LeverageParametersParams>,
    /// The parameters of the query for the value of what an account has borrowed of a token.
    pub borrowed_value: Option<BorrowedValueParams>,
    /// The parameters of the query for the amount an account has supplied of a token.
    pub supplied: Option<SuppliedParams>,
    /// The parameters of the query for the value of what an account has supplied of a token.
    pub supplied_value: Option<SuppliedValueParams>,
    /// The parameters of the query for the amount of a token that is available to borrow.
    pub available_borrow: Option<AvailableBorrowParams>,
    /// The parameters of the query for the yearly rate paid for borrowing a token.
    pub borrow_apy: Option<BorrowAPYParams>,
    /// The parameters of the query for the yearly rate earned for supplying a token.
    pub supply_apy: Option<SupplyAPYParams>,
    /// The parameters of the query for the value of a token's market.
    pub market_size: Option<MarketSizeParams>,
    /// The parameters of the query for the size of a token's market in the token itself.
    pub token_market_size: Option<TokenMarketSizeParams>,
    /// The parameters of the query for the amount of a token held in reserve.
    pub reserve_amount: Option<ReserveAmountParams>,
    /// The parameters of the query for the amount an account has set as collateral of a token.
    pub collateral: Option<CollateralParams>,
    /// The parameters of the query for the value of what an account has set as collateral of a
    /// token.
    pub collateral_value: Option<CollateralValueParams>,
}

impl StructUmeeQuery {
    /// The record with the given number and no field filled.
    pub open spec fn blank(assigned_query: u16) -> StructUmeeQuery {
        StructUmeeQuery {
            assigned_query,
            borrowed: None,
            exchange_rates: None,
            registered_tokens: None,
            leverage_parameters: None,
            borrowed_value: None,
            supplied: None,
            supplied_value: None,
            available_borrow: None,
            borrow_apy: None,
            supply_apy: None,
            market_size: None,
            token_market_size: None,
            reserve_amount: None,
            collateral: None,
            collateral_value: None,
        }
    }

    /// The record that carries `query`: its number, its parameters in their
    /// field, and every other field empty.
    pub open spec fn of(query: UmeeQuery) -> StructUmeeQuery {
        match query {
            UmeeQuery::Leverage(UmeeQueryLeverage::Borrowed(params)) => StructUmeeQuery {
                borrowed: Some(params),
                ..Self::blank(ASSIGNED_QUERY_BORROWED)
            },
            UmeeQuery::Oracle(UmeeQueryOracle::ExchangeRates(params)) => StructUmeeQuery {
                exchange_rates: Some(params),
                ..Self::blank(ASSIGNED_QUERY_EXCHANGE_RATES)
            },
            UmeeQuery::Leverage(UmeeQueryLeverage::RegisteredTokens(params)) => StructUmeeQuery {
                registered_tokens: Some(params),
                ..Self::blank(ASSIGNED_QUERY_REGISTERED_TOKENS)
            },
            UmeeQuery::Leverage(UmeeQueryLeverage::LeverageParameters(params)) => StructUmeeQuery {
                leverage_parameters: Some(params),
                ..Self::blank(ASSIGNED_QUERY_LEVERAGE_PARAMETERS)
            },
            UmeeQuery::Leverage(UmeeQueryLeverage::BorrowedValue(params)) => StructUmeeQuery {
                borrowed_value: Some(params),
                ..Self::blank(ASSIGNED_QUERY_BORROWED_VALUE)
            },
            UmeeQuery::Leverage(UmeeQueryLeverage::Supplied(params)) => StructUmeeQuery {
                supplied: Some(params),
                ..Self::blank(ASSIGNED_QUERY_SUPPLIED)
            },
            UmeeQuery::Leverage(UmeeQueryLeverage::SuppliedValue(params)) => StructUmeeQuery {
                supplied_value: Some(params),
                ..Self::blank(ASSIGNED_QUERY_SUPPLIED_VALUE)
            },
            UmeeQuery::Leverage(UmeeQueryLeverage::AvailableBorrow(params)) => StructUmeeQuery {
                available_borrow: Some(params),
                ..Self::blank(ASSIGNED_QUERY_AVAILABLE_BORROW)
            },
            UmeeQuery::Leverage(UmeeQueryLeverage::BorrowAPY(params)) => StructUmeeQuery {
                borrow_apy: Some(params),
                ..Self::blank(ASSIGNED_QUERY_BORROW_APY)
            },
            UmeeQuery::Leverage(UmeeQueryLeverage::SupplyAPY(params)) => StructUmeeQuery {
                supply_apy: Some(params),
                ..Self::blank(ASSIGNED_QUERY_SUPPLY_APY)
            },
            UmeeQuery::Leverage(UmeeQueryLeverage::MarketSize(params)) => StructUmeeQuery {
                market_size: Some(params),
                ..Self::blank(ASSIGNED_QUERY_MARKET_SIZE)
            },
            UmeeQuery::Leverage(UmeeQueryLeverage::TokenMarketSize(params)) => StructUmeeQuery {
                token_market_size: Some(params),
                ..Self::blank(ASSIGNED_QUERY_TOKEN_MARKET_SIZE)
            },
            UmeeQuery::Leverage(UmeeQueryLeverage::ReserveAmount(params)) => StructUmeeQuery {
                reserve_amount: Some(params),
                ..Self::blank(ASSIGNED_QUERY_RESERVE_AMOUNT)
            },
            UmeeQuery::Leverage(UmeeQueryLeverage::Collateral(params)) => StructUmeeQuery {
                collateral: Some(params),
                ..Self::blank(ASSIGNED_QUERY_COLLATERAL)
            },
            UmeeQuery::Leverage(UmeeQueryLeverage::CollateralValue(params)) => StructUmeeQuery {
                collateral_value: Some(params),
                ..Self::blank(ASSIGNED_QUERY_COLLATERAL_VALUE)
            },
        }
    }

    /// The query that the record's number names, with the parameters found in
    /// its field; `None` when the number names no query or the field is empty.
    pub open spec fn query(self) -> Option<UmeeQuery> {
        if self.assigned_query == ASSIGNED_QUERY_BORROWED {
            match self.borrowed {
                Some(params) => Some(UmeeQuery::Leverage(UmeeQueryLeverage::Borrowed(params))),
                None => None,
            }
        } else if self.assigned_query == ASSIGNED_QUERY_EXCHANGE_RATES {
            match self.exchange_rates {
                Some(params) => Some(UmeeQuery::Oracle(UmeeQueryOracle::ExchangeRates(params))),
                None => None,
            }
        } else if self.assigned_query == ASSIGNED_QUERY_REGISTERED_TOKENS {
            match self.registered_tokens {
                Some(params) => Some(
                    UmeeQuery::Leverage(UmeeQueryLeverage::RegisteredTokens(params)),
                ),
                None => None,
            }
        } else if self.assigned_query == ASSIGNED_QUERY_LEVERAGE_PARAMETERS {
            match self.leverage_parameters {
                Some(params) => Some(
                    UmeeQuery::Leverage(UmeeQueryLeverage::LeverageParameters(params)),
                ),
                None => None,
            }
        } else if self.assigned_query == ASSIGNED_QUERY_BORROWED_VALUE {
            match self.borrowed_value {
                Some(params) => Some(UmeeQuery::Leverage(UmeeQueryLeverage::BorrowedValue(params))),
                None => None,
            }
        } else if self.assigned_query == ASSIGNED_QUERY_SUPPLIED {
            match self.supplied {
                Some(params) => Some(UmeeQuery::Leverage(UmeeQueryLeverage::Supplied(params))),
                None => None,
            }
        } else if self.assigned_query == ASSIGNED_QUERY_SUPPLIED_VALUE {
            match self.supplied_value {
                Some(params) => Some(UmeeQuery::Leverage(UmeeQueryLeverage::SuppliedValue(params))),
                None => None,
            }
        } else if self.assigned_query == ASSIGNED_QUERY_AVAILABLE_BORROW {
            match self.available_borrow {
                Some(params) => Some(
                    UmeeQuery::Leverage(UmeeQueryLeverage::AvailableBorrow(params)),
                ),
                None => None,
            }
        } else if self.assigned_query == ASSIGNED_QUERY_BORROW_APY {
            match self.borrow_apy {
                Some(params) => Some(UmeeQuery::Leverage(UmeeQueryLeverage::BorrowAPY(params))),
                None => None,
            }
        } else if self.assigned_query == ASSIGNED_QUERY_SUPPLY_APY {
            match self.supply_apy {
                Some(params) => Some(UmeeQuery::Leverage(UmeeQueryLeverage::SupplyAPY(params))),
                None => None,
            }
        } else if self.assigned_query == ASSIGNED_QUERY_MARKET_SIZE {
            match self.market_size {
                Some(params) => Some(UmeeQuery::Leverage(UmeeQueryLeverage::MarketSize(params))),
                None => None,
            }
        } else if self.assigned_query == ASSIGNED_QUERY_TOKEN_MARKET_SIZE {
            match self.token_market_size {
                Some(params) => Some(
                    UmeeQuery::Leverage(UmeeQueryLeverage::TokenMarketSize(params)),
                ),
                None => None,
            }
        } else if self.assigned_query == ASSIGNED_QUERY_RESERVE_AMOUNT {
            match self.reserve_amount {
                Some(params) => Some(UmeeQuery::Leverage(UmeeQueryLeverage::ReserveAmount(params))),
                None => None,
            }
        } else if self.assigned_query == ASSIGNED_QUERY_COLLATERAL {
            match self.collateral {
                Some(params) => Some(UmeeQuery::Leverage(UmeeQueryLeverage::Collateral(params))),
                None => None,
            }
        } else if self.assigned_query == ASSIGNED_QUERY_COLLATERAL_VALUE {
            match self.collateral_value {
                Some(params) => Some(
                    UmeeQuery::Leverage(UmeeQueryLeverage::CollateralValue(params)),
                ),
                None => None,
            }
        } else {
            None
        }
    }

    /// Whether the field that the record's number names is filled.
    pub fn valid(&self) -> (ok: bool)
        ensures
            ok == self.query().is_some(),
    {
        if self.assigned_query == ASSIGNED_QUERY_BORROWED {
            self.borrowed.is_some()
        } else if self.assigned_query == ASSIGNED_QUERY_EXCHANGE_RATES {
            self.exchange_rates.is_some()
        } else if self.assigned_query == ASSIGNED_QUERY_REGISTERED_TOKENS {
            self.registered_tokens.is_some()
        } else if self.assigned_query == ASSIGNED_QUERY_LEVERAGE_PARAMETERS {
            self.leverage_parameters.is_some()
        } else if self.assigned_query == ASSIGNED_QUERY_BORROWED_VALUE {
            self.borrowed_value.is_some()
        } else if self.assigned_query == ASSIGNED_QUERY_SUPPLIED {
            self.supplied.is_some()
        } else if self.assigned_query == ASSIGNED_QUERY_SUPPLIED_VALUE {
            self.supplied_value.is_some()
        } else if self.assigned_query == ASSIGNED_QUERY_AVAILABLE_BORROW {
            self.available_borrow.is_some()
        } else if self.assigned_query == ASSIGNED_QUERY_BORROW_APY {
            self.borrow_apy.is_some()
        } else if self.assigned_query == ASSIGNED_QUERY_SUPPLY_APY {
            self.supply_apy.is_some()
        } else if self.assigned_query == ASSIGNED_QUERY_MARKET_SIZE {
            self.market_size.is_some()
        } else if self.assigned_query == ASSIGNED_QUERY_TOKEN_MARKET_SIZE {
            self.token_market_size.is_some()
        } else if self.assigned_query == ASSIGNED_QUERY_RESERVE_AMOUNT {
            self.reserve_amount.is_some()
        } else if self.assigned_query == ASSIGNED_QUERY_COLLATERAL {
            self.collateral.is_some()
        } else if self.assigned_query == ASSIGNED_QUERY_COLLATERAL_VALUE {
            self.collateral_value.is_some()
        } else {
            false
        }
    }

    fn empty(assigned_query: u16) -> (record: StructUmeeQuery)
        ensures
            record == Self::blank(assigned_query),
    {
        StructUmeeQuery {
            assigned_query,
            borrowed: None,
            exchange_rates: None,
            registered_tokens: None,
            leverage_parameters: None,
            borrowed_value: None,
            supplied: None,
            supplied_value: None,
            available_borrow: None,
            borrow_apy: None,
            supply_apy: None,
            market_size: None,
            token_market_size: None,
            reserve_amount: None,
            collateral: None,
            collateral_value: None,
        }
    }

    /// The record that asks for the amount an account has borrowed of a token.
    pub fn borrowed(params: BorrowedParams) -> (record: StructUmeeQuery)
        ensures
            record == Self::of(UmeeQuery::Leverage(UmeeQueryLeverage::Borrowed(params))),
    {
        let mut record = Self::empty(ASSIGNED_QUERY_BORROWED);
        record.borrowed = Some(params);
        record
    }

    /// The record that asks for the exchange rate of a token.
    pub fn exchange_rates(params: ExchangeRatesParams) -> (record: StructUmeeQuery)
        ensures
            record == Self::of(UmeeQuery::Oracle(UmeeQueryOracle::ExchangeRates(params))),
    {
        let mut record = Self::empty(ASSIGNED_QUERY_EXCHANGE_RATES);
        record.exchange_rates = Some(params);
        record
    }

    /// The record that asks for the tokens registered with the leverage module.
    pub fn registered_tokens(params: RegisteredTokensParams) -> (record: StructUmeeQuery)
        ensures
            record == Self::of(UmeeQuery::Leverage(UmeeQueryLeverage::RegisteredTokens(params))),
    {
        let mut record = Self::empty(ASSIGNED_QUERY_REGISTERED_TOKENS);
        record.registered_tokens = Some(params);
        record
    }

    /// The record that asks for the parameters of the leverage module.
    pub fn leverage_parameters(params: LeverageParametersParams) -> (record: StructUmeeQuery)
        ensures
            record == Self::of(UmeeQuery::Leverage(UmeeQueryLeverage::LeverageParameters(params))),
    {
        let mut record = Self::empty(ASSIGNED_QUERY_LEVERAGE_PARAMETERS);
        record.leverage_parameters = Some(params);
        record
    }

    /// The record that asks for the value of what an account has borrowed of a token.
    pub fn borrowed_value(params: BorrowedValueParams) -> (record: StructUmeeQuery)
        ensures
            record == Self::of(UmeeQuery::Leverage(UmeeQueryLeverage::BorrowedValue(params))),
    {
        let mut record = Self::empty(ASSIGNED_QUERY_BORROWED_VALUE);
        record.borrowed_value = Some(params);
        record
    }

    /// The record that asks for the amount an account has supplied of a token.
    pub fn supplied(params: SuppliedParams) -> (record: StructUmeeQuery)
        ensures
            record == Self::of(UmeeQuery::Leverage(UmeeQueryLeverage::Supplied(params))),
    {
        let mut record = Self::empty(ASSIGNED_QUERY_SUPPLIED);
        record.supplied = Some(params);
        record
    }

    /// The record that asks for the value of what an account has supplied of a token.
    pub fn supplied_value(params: SuppliedValueParams) -> (record: StructUmeeQuery)
        ensures
            record == Self::of(UmeeQuery::Leverage(UmeeQueryLeverage::SuppliedValue(params))),
    {
        let mut record = Self::empty(ASSIGNED_QUERY_SUPPLIED_VALUE);
        record.supplied_value = Some(params);
        record
    }

    /// The record that asks for the amount of a token that is available to borrow.
    pub fn available_borrow(params: AvailableBorrowParams) -> (record: StructUmeeQuery)
        ensures
            record == Self::of(UmeeQuery::Leverage(UmeeQueryLeverage::AvailableBorrow(params))),
    {
        let mut record = Self::empty(ASSIGNED_QUERY_AVAILABLE_BORROW);
        record.available_borrow = Some(params);
        record
    }

    /// The record that asks for the yearly rate paid for borrowing a token.
    pub fn borrow_apy(params: BorrowAPYParams) -> (record: StructUmeeQuery)
        ensures
            record == Self::of(UmeeQuery::Leverage(UmeeQueryLeverage::BorrowAPY(params))),
    {
        let mut record = Self::empty(ASSIGNED_QUERY_BORROW_APY);
        record.borrow_apy = Some(params);
        record
    }

    /// The record that asks for the yearly rate earned for supplying a token.
    pub fn supply_apy(params: SupplyAPYParams) -> (record: StructUmeeQuery)
        ensures
            record == Self::of(UmeeQuery::Leverage(UmeeQueryLeverage::SupplyAPY(params))),
    {
        let mut record = Self::empty(ASSIGNED_QUERY_SUPPLY_APY);
        record.supply_apy = Some(params);
        record
    }

    /// The record that asks for the value of a token's market.
    pub fn market_size(params: MarketSizeParams) -> (record: StructUmeeQuery)
        ensures
            record == Self::of(UmeeQuery::Leverage(UmeeQueryLeverage::MarketSize(params))),
    {
        let mut record = Self::empty(ASSIGNED_QUERY_MARKET_SIZE);
        record.market_size = Some(params);
        record
    }

    /// The record that asks for the size of a token's market in the token itself.
    pub fn token_market_size(params: TokenMarketSizeParams) -> (record: StructUmeeQuery)
        ensures
            record == Self::of(UmeeQuery::Leverage(UmeeQueryLeverage::TokenMarketSize(params))),
    {
        let mut record = Self::empty(ASSIGNED_QUERY_TOKEN_MARKET_SIZE);
        record.token_market_size = Some(params);
        record
    }

    /// The record that asks for the amount of a token held in reserve.
    pub fn reserve_amount(params: ReserveAmountParams) -> (record: StructUmeeQuery)
        ensures
            record == Self::of(UmeeQuery::Leverage(UmeeQueryLeverage::ReserveAmount(params))),
    {
        let mut record = Self::empty(ASSIGNED_QUERY_RESERVE_AMOUNT);
        record.reserve_amount = Some(params);
        record
    }

    /// The record that asks for the amount an account has set as collateral of a token.
    pub fn collateral(params: CollateralParams) -> (record: StructUmeeQuery)
        ensures
            record == Self::of(UmeeQuery::Leverage(UmeeQueryLeverage::Collateral(params))),
    {
        let mut record = Self::empty(ASSIGNED_QUERY_COLLATERAL);
        record.collateral = Some(params);
        record
    }

    /// The record that asks for the value of what an account has set as collateral of a token.
    pub fn collateral_value(params: CollateralValueParams) -> (record: StructUmeeQuery)
        ensures
            record == Self::of(UmeeQuery::Leverage(UmeeQueryLeverage::CollateralValue(params))),
    {
        let mut record = Self::empty(ASSIGNED_QUERY_COLLATERAL_VALUE);
        record.collateral_value = Some(params);
        record
    }
}

/// A record built from a query carries that query and no other, so the
/// mapping from queries to records is one-to-one and every such record is
/// valid.
pub proof fn lemma_record_carries_its_query(query: UmeeQuery)
    ensures
        StructUmeeQuery::of(query).query() == Some(query),
{
}

/// The number of a record names the kind of answer that the chain gives:
/// two queries are put under the same number exactly when their answers are
/// of the same kind.
pub proof fn lemma_number_names_reply_kind(a: UmeeQuery, b: UmeeQuery)
    ensures
        StructUmeeQuery::of(a).assigned_query == StructUmeeQuery::of(b).assigned_query
            <==> a.reply_kind() == b.reply_kind(),
{
}

} // verus!
