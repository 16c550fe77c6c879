//! The contract's entry points and what stands behind them.
//!
//! The chain calls an entry point with the contract's store and a message.
//! Asking the chain is not done here: a query that needs the chain comes back
//! as the request to put to it, and [`query_chain`] reads what the chain said.

use vstd::prelude::*;
use vstd::string::*;
use crate::chain_msg::{assigned_name, StructUmeeMsg, UmeeMsg};
use crate::chain_query::{ReplyKind, StructUmeeQuery, UmeeQuery};
use crate::error::{ContractError, ContractErrorView, StdError, StdErrorView};
use crate::host::{MessageInfo, QuerierOutcome, QueryRequest};
use crate::msg::{ChainQuery, ExecuteMsg, InstantiateMsg, OwnerResponse, QueryAction, QueryMsg};
use crate::msg_leverage::{SupplyParams, UmeeMsgLeverage, WithdrawParams};
use crate::query_leverage::{
    AvailableBorrowParams, BorrowAPYParams, BorrowedParams, BorrowedValueParams, CollateralParams,
    CollateralValueParams, LeverageParametersParams, MarketSizeParams, RegisteredTokensParams,
    ReserveAmountParams, SuppliedParams, SuppliedValueParams, SupplyAPYParams,
    TokenMarketSizeParams, UmeeQueryLeverage,
};
use crate::query_oracle::{ExchangeRatesParams, UmeeQueryOracle};
use crate::response::{Response, ResponseView};
use crate::state::{State, Storage, STATE_KIND};

verus! {

/// The name under which the contract's code is published.
pub const CONTRACT_NAME: &'static str = "crates.io:umee-cosmwasm";

/// The version of the contract's code.
pub const CONTRACT_VERSION: &'static str = "0.1.0";

/// The response that records the method `method` and sends nothing.
pub open spec fn recorded(method: Seq<char>) -> ResponseView {
    ResponseView { messages: Seq::empty(), attributes: seq![("method"@, method)] }
}

/// The response that records the method `method` and sends `record` to the
/// chain.
pub open spec fn sent(method: Seq<char>, record: StructUmeeMsg) -> ResponseView {
    ResponseView { messages: seq![record], attributes: seq![("method"@, method)] }
}

/// Sets the contract up: the sender of the message becomes the owner, and
/// the store records the name and version of the contract's code.
///
/// The response records the method and the owner.
pub fn instantiate(store: &mut Storage, info: MessageInfo, msg: InstantiateMsg) -> (res: Result<
    Response,
    ContractError,
>)
    ensures
        res.is_ok(),
        res->Ok_0@ =~= (ResponseView {
            messages: Seq::empty(),
            attributes: seq![("method"@, "instantiate"@), ("owner"@, info.sender@)],
        }),
        final(store).state == Some(State { owner: info.sender }),
        final(store).contract_info.is_some(),
        final(store).contract_info->Some_0@ == (CONTRACT_NAME@, CONTRACT_VERSION@),
{
    let state = State { owner: info.sender.clone() };
    store.set_contract_version(
        String::from_str(CONTRACT_NAME),
        String::from_str(CONTRACT_VERSION),
    );
    store.save(state);
    Ok(
        Response::new().add_attribute(
            String::from_str("method"),
            String::from_str("instantiate"),
        ).add_attribute(String::from_str("owner"), info.sender),
    )
}

/// What a message to the contract must come to: the result, and the store
/// after it.
pub open spec fn execute_outcome(
    before: Storage,
    info: MessageInfo,
    msg: ExecuteMsg,
    res: Result<Response, ContractError>,
    after: Storage,
) -> bool {
    match msg {
        ExecuteMsg::ChangeOwner { new_owner } => change_owner_outcome(
            before,
            info.sender@,
            new_owner,
            res,
            after,
        ),
        ExecuteMsg::Chain(record) => after == before && msg_chain_outcome(record, res),
        ExecuteMsg::Umee(UmeeMsg::Leverage(leverage)) => after == before && leverage_outcome(
            leverage,
            res,
        ),
        ExecuteMsg::Supply(params) => after == before && leverage_outcome(
            UmeeMsgLeverage::Supply(params),
            res,
        ),
    }
}

/// Carries out a message to the contract.
///
/// Only a change of owner touches the store, and only when the owner sends
/// it. Every other message becomes a message for the chain.
pub fn execute(store: &mut Storage, info: MessageInfo, msg: ExecuteMsg) -> (res: Result<
    Response,
    ContractError,
>)
    ensures
        execute_outcome(*old(store), info, msg, res, *final(store)),
{
    match msg {
        ExecuteMsg::ChangeOwner { new_owner } => try_change_owner(store, info, new_owner),
        ExecuteMsg::Chain(record) => msg_chain(record),
        ExecuteMsg::Umee(UmeeMsg::Leverage(leverage)) => execute_leverage(leverage),
        ExecuteMsg::Supply(params) => execute_lend(params),
    }
}

/// A message changes the store only when it asks for a change of owner and
/// the owner sent it. A message that fails leaves the store as it was, and
/// no message touches the record of the contract's code.
pub proof fn lemma_only_the_owner_changes_the_store(
    before: Storage,
    info: MessageInfo,
    msg: ExecuteMsg,
    res: Result<Response, ContractError>,
    after: Storage,
)
    requires
        execute_outcome(before, info, msg, res, after),
    ensures
        after.contract_info == before.contract_info,
        res.is_err() ==> after == before,
        after != before ==> {
            &&& msg is ChangeOwner
            &&& before.state.is_some()
            &&& before.state->Some_0.owner@ == info.sender@
            &&& after.state == Some(State { owner: msg->new_owner })
        },
{
}

/// What a change of owner asked by `sender` must come to.
///
/// With no state in the store it fails as not found. With a state, it is
/// carried out exactly when `sender` is the owner: the owner becomes
/// `new_owner` and nothing else in the store changes. From anyone else it is
/// refused, and the store stays as it was.
pub open spec fn change_owner_outcome(
    before: Storage,
    sender: Seq<char>,
    new_owner: String,
    res: Result<Response, ContractError>,
    after: Storage,
) -> bool {
    match before.state {
        None => {
            &&& res.is_err()
            &&& res->Err_0@ == ContractErrorView::Std(
                StdErrorView::NotFound { kind: STATE_KIND@ },
            )
            &&& after == before
        },
        Some(state) => if state.owner@ == sender {
            &&& res.is_ok()
            &&& res->Ok_0@ =~= recorded("change_owner"@)
            &&& after.state == Some(State { owner: new_owner })
            &&& after.contract_info == before.contract_info
        } else {
            &&& res.is_err()
            &&& res->Err_0@ == ContractErrorView::Unauthorized
            &&& after == before
        },
    }
}

/// Makes `new_owner` the owner, if the sender is the owner now.
pub fn try_change_owner(store: &mut Storage, info: MessageInfo, new_owner: String) -> (res:
    Result<Response, ContractError>)
    ensures
        change_owner_outcome(*old(store), info.sender@, new_owner, res, *final(store)),
{
    let state = match store.load() {
        Ok(state) => state,
        Err(err) => {
            return Err(ContractError::Std(err));
        },
    };
    if !(info.sender == state.owner) {
        return Err(ContractError::Unauthorized {});
    }
    store.save(State { owner: new_owner });
    Ok(Response::new().add_attribute(String::from_str("method"), String::from_str("change_owner")))
}

/// What sending a record to the chain must come to: a valid record is sent
/// under the name that the chain gives its number, any other is refused.
pub open spec fn msg_chain_outcome(
    record: StructUmeeMsg,
    res: Result<Response, ContractError>,
) -> bool {
    if record.msg().is_some() {
        res.is_ok() && res->Ok_0@ =~= sent(assigned_name(record.assigned_msg), record)
    } else {
        res.is_err() && res->Err_0@ == (ContractErrorView::CustomError {
            val: "invalid umee msg"@,
        })
    }
}

/// Sends a message to the chain as the record given.
pub fn msg_chain(umee_msg: StructUmeeMsg) -> (res: Result<Response, ContractError>)
    ensures
        msg_chain_outcome(umee_msg, res),
{
    if !umee_msg.valid() {
        return Err(ContractError::CustomError { val: String::from_str("invalid umee msg") });
    }
    let method = umee_msg.assigned_str();
    Ok(Response::new().add_attribute(String::from_str("method"), method).add_message(umee_msg))
}

/// The method that the response to a message of the leverage module
/// records: `lend_asset` for supplying and for withdrawing, and for every
/// other message the name that the chain gives it.
pub open spec fn leverage_method(msg: UmeeMsgLeverage) -> Seq<char> {
    match msg {
        UmeeMsgLeverage::Supply(_) => "lend_asset"@,
        UmeeMsgLeverage::Withdraw(_) => "lend_asset"@,
        _ => assigned_name(StructUmeeMsg::of(UmeeMsg::Leverage(msg)).assigned_msg),
    }
}

/// What a message of the leverage module must come to: it is sent to the
/// chain as the record that carries it.
pub open spec fn leverage_outcome(
    msg: UmeeMsgLeverage,
    res: Result<Response, ContractError>,
) -> bool {
    res.is_ok() && res->Ok_0@ =~= sent(
        leverage_method(msg),
        StructUmeeMsg::of(UmeeMsg::Leverage(msg)),
    )
}

/// Sends a message of the leverage module to the chain.
pub fn execute_leverage(execute_leverage_msg: UmeeMsgLeverage) -> (res: Result<
    Response,
    ContractError,
>)
    ensures
        leverage_outcome(execute_leverage_msg, res),
{
    match execute_leverage_msg {
        UmeeMsgLeverage::Supply(params) => execute_lend(params),
        UmeeMsgLeverage::Withdraw(params) => execute_withdraw(params),
        UmeeMsgLeverage::MaxWithDraw(params) => msg_chain(StructUmeeMsg::max_withdraw(params)),
        UmeeMsgLeverage::Collateralize(params) => msg_chain(StructUmeeMsg::collateralize(params)),
        UmeeMsgLeverage::Decollateralize(params) => msg_chain(
            StructUmeeMsg::decollateralize(params),
        ),
        UmeeMsgLeverage::Borrow(params) => msg_chain(StructUmeeMsg::borrow(params)),
        UmeeMsgLeverage::Repay(params) => msg_chain(StructUmeeMsg::repay(params)),
        UmeeMsgLeverage::Liquidate(params) => msg_chain(StructUmeeMsg::liquidate(params)),
        UmeeMsgLeverage::SupplyCollateral(params) => msg_chain(
            StructUmeeMsg::supply_collateralize(params),
        ),
    }
}

/// Sends the leverage module the message that supplies coins.
pub fn execute_lend(lend_asset_params: SupplyParams) -> (res: Result<Response, ContractError>)
    ensures
        leverage_outcome(UmeeMsgLeverage::Supply(lend_asset_params), res),
{
    Ok(
        Response::new().add_attribute(
            String::from_str("method"),
            String::from_str("lend_asset"),
        ).add_message(StructUmeeMsg::supply(lend_asset_params)),
    )
}

/// Sends the leverage module the message that withdraws supplied coins.
pub fn execute_withdraw(withdraw_asset_params: WithdrawParams) -> (res: Result<
    Response,
    ContractError,
>)
    ensures
        leverage_outcome(UmeeMsgLeverage::Withdraw(withdraw_asset_params), res),
{
    Ok(
        Response::new().add_attribute(
            String::from_str("method"),
            String::from_str("lend_asset"),
        ).add_message(StructUmeeMsg::withdraw(withdraw_asset_params)),
    )
}

/// What a query to the contract must come to.
pub open spec fn query_outcome(
    store: Storage,
    msg: QueryMsg,
    res: Result<QueryAction, StdError>,
) -> bool {
    match msg {
        QueryMsg::GetOwner {} => owner_outcome(store, res),
        QueryMsg::Chain(request) => res == Ok::<QueryAction, StdError>(
            QueryAction::Ask(ChainQuery { request, reply: ReplyKind::Binary }),
        ),
        QueryMsg::Umee(query) => asks(res, query),
        QueryMsg::Borrowed(params) => asks(
            res,
            UmeeQuery::Leverage(UmeeQueryLeverage::Borrowed(params)),
        ),
        QueryMsg::ExchangeRates(params) => asks(
            res,
            UmeeQuery::Oracle(UmeeQueryOracle::ExchangeRates(params)),
        ),
        QueryMsg::RegisteredTokens(params) => asks(
            res,
            UmeeQuery::Leverage(UmeeQueryLeverage::RegisteredTokens(params)),
        ),
        QueryMsg::LeverageParameters(params) => asks(
            res,
            UmeeQuery::Leverage(UmeeQueryLeverage::LeverageParameters(params)),
        ),
        QueryMsg::BorrowedValue(params) => asks(
            res,
            UmeeQuery::Leverage(UmeeQueryLeverage::BorrowedValue(params)),
        ),
    }
}

/// Whether `res` is the request to put `query` to the chain.
pub open spec fn asks(res: Result<QueryAction, StdError>, query: UmeeQuery) -> bool {
    res == Ok::<QueryAction, StdError>(QueryAction::Ask(ChainQuery::of(query)))
}

/// What asking for the owner must come to: the owner in the store, or the
/// error that the store holds no state.
pub open spec fn owner_outcome(store: Storage, res: Result<QueryAction, StdError>) -> bool {
    match store.state {
        Some(state) => res == Ok::<QueryAction, StdError>(
            QueryAction::Answer(OwnerResponse { owner: state.owner }),
        ),
        None => res.is_err() && res->Err_0@ == (StdErrorView::NotFound { kind: STATE_KIND@ }),
    }
}

/// Answers a query from the store, or says what to ask the chain.
///
/// The owner is read from the store. Every other query comes back as the
/// request that carries it, with the kind of answer that the chain gives.
pub fn query(store: &Storage, msg: QueryMsg) -> (res: Result<QueryAction, StdError>)
    ensures
        query_outcome(*store, msg, res),
{
    match msg {
        QueryMsg::GetOwner {} => match query_owner(store) {
            Ok(owner) => Ok(QueryAction::Answer(owner)),
            Err(err) => Err(err),
        },
        QueryMsg::Chain(request) => Ok(
            QueryAction::Ask(ChainQuery { request, reply: ReplyKind::Binary }),
        ),
        QueryMsg::Umee(UmeeQuery::Leverage(leverage)) => Ok(
            QueryAction::Ask(query_leverage(leverage)),
        ),
        QueryMsg::Umee(UmeeQuery::Oracle(oracle)) => Ok(QueryAction::Ask(query_oracle(oracle))),
        QueryMsg::Borrowed(params) => Ok(QueryAction::Ask(query_borrowed(params))),
        QueryMsg::ExchangeRates(params) => Ok(QueryAction::Ask(query_exchange_rates(params))),
        QueryMsg::RegisteredTokens(params) => Ok(
            QueryAction::Ask(query_registered_tokens(params)),
        ),
        QueryMsg::LeverageParameters(params) => Ok(
            QueryAction::Ask(query_leverage_parameters(params)),
        ),
        QueryMsg::BorrowedValue(params) => Ok(QueryAction::Ask(query_borrowed_value(params))),
    }
}

/// The owner in the store, or the error that the store holds no state.
pub fn query_owner(store: &Storage) -> (res: Result<OwnerResponse, StdError>)
    ensures
        match store.state {
            Some(state) => res == Ok::<OwnerResponse, StdError>(
                OwnerResponse { owner: state.owner },
            ),
            None => res.is_err() && res->Err_0@ == (StdErrorView::NotFound {
                kind: STATE_KIND@,
            }),
        },
{
    match store.load() {
        Ok(state) => Ok(OwnerResponse { owner: state.owner }),
        Err(err) => Err(err),
    }
}

/// The message of the error for a query that the chain did not answer: what
/// went wrong, then the reason given.
pub open spec fn querier_failure(outcome: QuerierOutcome) -> Seq<char> {
    match outcome {
        QuerierOutcome::Unserializable { reason } => "Serializing QueryRequest: "@ + reason@,
        QuerierOutcome::SystemError { reason } => "Querier system error: "@ + reason@,
        QuerierOutcome::ContractError { reason } => "Querier contract error: "@ + reason@,
        QuerierOutcome::Reply { data } => Seq::empty(),
    }
}

/// Reads what the chain did with a query that was passed on to it: the
/// module's answer as it came, or an error that says where the query failed.
pub fn query_chain(outcome: QuerierOutcome) -> (res: Result<Vec<u8>, StdError>)
    ensures
        match outcome {
            QuerierOutcome::Reply { data } => res == Ok::<Vec<u8>, StdError>(data),
            _ => res.is_err() && res->Err_0@ == (StdErrorView::GenericErr {
                msg: querier_failure(outcome),
            }),
        },
{
    match outcome {
        QuerierOutcome::Unserializable { reason } => Err(
            StdError::generic_err(
                String::from_str("Serializing QueryRequest: ").concat(reason.as_str()),
            ),
        ),
        QuerierOutcome::SystemError { reason } => Err(
            StdError::generic_err(
                String::from_str("Querier system error: ").concat(reason.as_str()),
            ),
        ),
        QuerierOutcome::ContractError { reason } => Err(
            StdError::generic_err(
                String::from_str("Querier contract error: ").concat(reason.as_str()),
            ),
        ),
        QuerierOutcome::Reply { data } => Ok(data),
    }
}

/// Puts a query of the leverage module to the chain.
pub fn query_leverage(msg: UmeeQueryLeverage) -> (ask: ChainQuery)
    ensures
        ask == ChainQuery::of(UmeeQuery::Leverage(msg)),
{
    match msg {
        UmeeQueryLeverage::Borrowed(params) => query_borrowed(params),
        UmeeQueryLeverage::RegisteredTokens(params) => query_registered_tokens(params),
        UmeeQueryLeverage::LeverageParameters(params) => query_leverage_parameters(params),
        UmeeQueryLeverage::BorrowedValue(params) => query_borrowed_value(params),
        UmeeQueryLeverage::Supplied(params) => query_supplied(params),
        UmeeQueryLeverage::SuppliedValue(params) => query_supplied_value(params),
        UmeeQueryLeverage::AvailableBorrow(params) => query_available_borrow(params),
        UmeeQueryLeverage::BorrowAPY(params) => query_borrow_apy(params),
        UmeeQueryLeverage::SupplyAPY(params) => query_supply_apy(params),
        UmeeQueryLeverage::MarketSize(params) => query_market_size(params),
        UmeeQueryLeverage::TokenMarketSize(params) => query_token_market_size(params),
        UmeeQueryLeverage::ReserveAmount(params) => query_reserve_amount(params),
        UmeeQueryLeverage::Collateral(params) => query_collateral(params),
        UmeeQueryLeverage::CollateralValue(params) => query_collateral_value(params),
    }
}

/// Puts a query of the oracle module to the chain.
pub fn query_oracle(msg: UmeeQueryOracle) -> (ask: ChainQuery)
    ensures
        ask == ChainQuery::of(UmeeQuery::Oracle(msg)),
{
    match msg {
        UmeeQueryOracle::ExchangeRates(params) => query_exchange_rates(params),
    }
}

/// Asks the chain for the amount an account has borrowed of a token.
pub fn query_borrowed(params: BorrowedParams) -> (ask: ChainQuery)
    ensures
        ask == ChainQuery::of(UmeeQuery::Leverage(UmeeQueryLeverage::Borrowed(params))),
{
    ChainQuery {
        request: QueryRequest::Custom(StructUmeeQuery::borrowed(params)),
        reply: ReplyKind::Borrowed,
    }
}

/// Asks the chain for the tokens registered with the leverage module.
pub fn query_registered_tokens(params: RegisteredTokensParams) -> (ask: ChainQuery)
    ensures
        ask == ChainQuery::of(UmeeQuery::Leverage(UmeeQueryLeverage::RegisteredTokens(params))),
{
    ChainQuery {
        request: QueryRequest::Custom(StructUmeeQuery::registered_tokens(params)),
        reply: ReplyKind::RegisteredTokens,
    }
}

/// Asks the chain for the parameters of the leverage module.
pub fn query_leverage_parameters(params: LeverageParametersParams) -> (ask: ChainQuery)
    ensures
        ask == ChainQuery::of(UmeeQuery::Leverage(UmeeQueryLeverage::LeverageParameters(params))),
{
    ChainQuery {
        request: QueryRequest::Custom(StructUmeeQuery::leverage_parameters(params)),
        reply: ReplyKind::LeverageParameters,
    }
}

/// Asks the chain for the value of what an account has borrowed of a token.
pub fn query_borrowed_value(params: BorrowedValueParams) -> (ask: ChainQuery)
    ensures
        ask == ChainQuery::of(UmeeQuery::Leverage(UmeeQueryLeverage::BorrowedValue(params))),
{
    ChainQuery {
        request: QueryRequest::Custom(StructUmeeQuery::borrowed_value(params)),
        reply: ReplyKind::BorrowedValue,
    }
}

/// Asks the chain for the amount an account has supplied of a token.
pub fn query_supplied(params: SuppliedParams) -> (ask: ChainQuery)
    ensures
        ask == ChainQuery::of(UmeeQuery::Leverage(UmeeQueryLeverage::Supplied(params))),
{
    ChainQuery {
        request: QueryRequest::Custom(StructUmeeQuery::supplied(params)),
        reply: ReplyKind::Supplied,
    }
}

/// Asks the chain for the value of what an account has supplied of a token.
pub fn query_supplied_value(params: SuppliedValueParams) -> (ask: ChainQuery)
    ensures
        ask == ChainQuery::of(UmeeQuery::Leverage(UmeeQueryLeverage::SuppliedValue(params))),
{
    ChainQuery {
        request: QueryRequest::Custom(StructUmeeQuery::supplied_value(params)),
        reply: ReplyKind::SuppliedValue,
    }
}

/// Asks the chain for the amount of a token that is available to borrow.
pub fn query_available_borrow(params: AvailableBorrowParams) -> (ask: ChainQuery)
    ensures
        ask == ChainQuery::of(UmeeQuery::Leverage(UmeeQueryLeverage::AvailableBorrow(params))),
{
    ChainQuery {
        request: QueryRequest::Custom(StructUmeeQuery::available_borrow(params)),
        reply: ReplyKind::AvailableBorrow,
    }
}

/// Asks the chain for the yearly rate paid for borrowing a token.
pub fn query_borrow_apy(params: BorrowAPYParams) -> (ask: ChainQuery)
    ensures
        ask == ChainQuery::of(UmeeQuery::Leverage(UmeeQueryLeverage::BorrowAPY(params))),
{
    ChainQuery {
        request: QueryRequest::Custom(StructUmeeQuery::borrow_apy(params)),
        reply: ReplyKind::BorrowAPY,
    }
}

/// Asks the chain for the yearly rate earned for supplying a token.
pub fn query_supply_apy(params: SupplyAPYParams) -> (ask: ChainQuery)
    ensures
        ask == ChainQuery::of(UmeeQuery::Leverage(UmeeQueryLeverage::SupplyAPY(params))),
{
    ChainQuery {
        request: QueryRequest::Custom(StructUmeeQuery::supply_apy(params)),
        reply: ReplyKind::SupplyAPY,
    }
}

/// Asks the chain for the value of a token's market.
pub fn query_market_size(params: MarketSizeParams) -> (ask: ChainQuery)
    ensures
        ask == ChainQuery::of(UmeeQuery::Leverage(UmeeQueryLeverage::MarketSize(params))),
{
    ChainQuery {
        request: QueryRequest::Custom(StructUmeeQuery::market_size(params)),
        reply: ReplyKind::MarketSize,
    }
}

/// Asks the chain for the size of a token's market in the token itself.
pub fn query_token_market_size(params: TokenMarketSizeParams) -> (ask: ChainQuery)
    ensures
        ask == ChainQuery::of(UmeeQuery::Leverage(UmeeQueryLeverage::TokenMarketSize(params))),
{
    ChainQuery {
        request: QueryRequest::Custom(StructUmeeQuery::token_market_size(params)),
        reply: ReplyKind::TokenMarketSize,
    }
}

/// Asks the chain for the amount of a token held in reserve.
pub fn query_reserve_amount(params: ReserveAmountParams) -> (ask: ChainQuery)
    ensures
        ask == ChainQuery::of(UmeeQuery::Leverage(UmeeQueryLeverage::ReserveAmount(params))),
{
    ChainQuery {
        request: QueryRequest::Custom(StructUmeeQuery::reserve_amount(params)),
        reply: ReplyKind::ReserveAmount,
    }
}

/// Asks the chain for the amount an account has set as collateral of a token.
pub fn query_collateral(params: CollateralParams) -> (ask: ChainQuery)
    ensures
        ask == ChainQuery::of(UmeeQuery::Leverage(UmeeQueryLeverage::Collateral(params))),
{
    ChainQuery {
        request: QueryRequest::Custom(StructUmeeQuery::collateral(params)),
        reply: ReplyKind::Collateral,
    }
}

/// Asks the chain for the value of what an account has set as collateral of a token.
pub fn query_collateral_value(params: CollateralValueParams) -> (ask: ChainQuery)
    ensures
        ask == ChainQuery::of(UmeeQuery::Leverage(UmeeQueryLeverage::CollateralValue(params))),
{
    ChainQuery {
        request: QueryRequest::Custom(StructUmeeQuery::collateral_value(params)),
        reply: ReplyKind::CollateralValue,
    }
}

/// Asks the chain for the exchange rate of a token.
pub fn query_exchange_rates(params: ExchangeRatesParams) -> (ask: ChainQuery)
    ensures
        ask == ChainQuery::of(UmeeQuery::Oracle(UmeeQueryOracle::ExchangeRates(params))),
{
    ChainQuery {
        request: QueryRequest::Custom(StructUmeeQuery::exchange_rates(params)),
        reply: ReplyKind::ExchangeRates,
    }
}

} // verus!
