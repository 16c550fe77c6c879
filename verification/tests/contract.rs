use umee_cosmwasm::chain_msg::{StructUmeeMsg, UmeeMsg};
use umee_cosmwasm::coin::Coin;
use umee_cosmwasm::contract::{
    execute, execute_leverage, execute_lend, execute_withdraw, instantiate, msg_chain, query,
    query_owner, try_change_owner, CONTRACT_NAME, CONTRACT_VERSION,
};
use umee_cosmwasm::error::{ContractError, StdError};
use umee_cosmwasm::host::MessageInfo;
use umee_cosmwasm::msg::{ExecuteMsg, InstantiateMsg, OwnerResponse, QueryAction, QueryMsg};
use umee_cosmwasm::msg_leverage::{
    BorrowParams, CollateralizeParams, DecollateralizeParams, LiquidateParams,
    MsgMaxWithDrawParams, RepayParams, SupplyCollateralParams, SupplyParams, UmeeMsgLeverage,
    WithdrawParams,
};
use umee_cosmwasm::response::{Attribute, Response};
use umee_cosmwasm::state::{ContractVersion, State, Storage};

fn coins(amount: u128, denom: &str) -> Vec<Coin> {
    vec![Coin { denom: denom.to_string(), amount }]
}

fn coin(amount: u128, denom: &str) -> Coin {
    Coin { denom: denom.to_string(), amount }
}

fn mock_dependencies_with_balance(_balance: &[Coin]) -> Storage {
    Storage::new()
}

fn mock_info(sender: &str, funds: &[Coin]) -> MessageInfo {
    MessageInfo { sender: sender.to_string(), funds: funds.to_vec() }
}

fn owner_of(deps: &Storage) -> OwnerResponse {
    match query(deps, QueryMsg::GetOwner {}).unwrap() {
        QueryAction::Answer(value) => value,
        QueryAction::Ask(ask) => panic!("the owner is not asked of the chain: {:?}", ask),
    }
}

fn attr(key: &str, value: &str) -> Attribute {
    Attribute { key: key.to_string(), value: value.to_string() }
}

fn supply_params() -> SupplyParams {
    SupplyParams { supplier: "alice".to_string(), amount: coin(70, "uumee") }
}

fn withdraw_params() -> WithdrawParams {
    WithdrawParams { supplier: "alice".to_string(), amount: coin(30, "u/uumee") }
}

fn blank_msg(assigned_msg: u16) -> StructUmeeMsg {
    StructUmeeMsg {
        assigned_msg,
        supply: None,
        withdraw: None,
        collateralize: None,
        decollateralize: None,
        borrow: None,
        repay: None,
        liquidate: None,
        supply_collateralize: None,
        max_withdraw: None,
    }
}

#[test]
fn proper_initialization() {
    let mut deps = mock_dependencies_with_balance(&coins(2, "token"));

    let msg = InstantiateMsg {};
    let info = mock_info("creator", &coins(1000, "earth"));

    // we can just call .unwrap() to assert this was a success
    let res = instantiate(&mut deps, info, msg).unwrap();
    assert_eq!(0, res.messages.len());

    // it worked, let's query the state
    let value: OwnerResponse = owner_of(&deps);
    assert_eq!("creator", value.owner);
}

#[test]
fn change_owner() {
    let mut deps = mock_dependencies_with_balance(&coins(2, "token"));

    let first_owner = "creator";
    let msg = InstantiateMsg {};
    let info = mock_info(first_owner, &coins(2, "token"));
    let _res = instantiate(&mut deps, info, msg).unwrap();

    let value: OwnerResponse = owner_of(&deps);
    assert_eq!(first_owner, value.owner);

    let new_owner = "new_owner";

    // only the creator can change the owner
    let auth_info = mock_info(new_owner, &coins(2, "token"));
    let msg = ExecuteMsg::ChangeOwner { new_owner: new_owner.to_string() };
    let res = execute(&mut deps, auth_info, msg);
    match res {
        Err(ContractError::Unauthorized {}) => {}
        _ => panic!("Must return unauthorized error"),
    }

    let auth_info = mock_info(first_owner, &coins(2, "token"));
    let msg = ExecuteMsg::ChangeOwner { new_owner: new_owner.to_string() };
    let _res = execute(&mut deps, auth_info, msg).unwrap();

    let value: OwnerResponse = owner_of(&deps);
    assert_eq!(new_owner, value.owner);
}

#[test]
fn instantiate_records_method_owner_and_code() {
    let mut deps = Storage::new();
    let res = instantiate(&mut deps, mock_info("creator", &[]), InstantiateMsg {}).unwrap();
    assert_eq!(
        res,
        Response {
            messages: vec![],
            attributes: vec![attr("method", "instantiate"), attr("owner", "creator")],
        }
    );
    assert_eq!(deps.state, Some(State { owner: "creator".to_string() }));
    assert_eq!(
        deps.contract_info,
        Some(ContractVersion {
            contract: "crates.io:umee-cosmwasm".to_string(),
            version: "0.1.0".to_string(),
        })
    );
    assert_eq!(CONTRACT_NAME, "crates.io:umee-cosmwasm");
    assert_eq!(CONTRACT_VERSION, "0.1.0");
}

#[test]
fn instantiate_again_replaces_the_owner() {
    let mut deps = Storage::new();
    instantiate(&mut deps, mock_info("creator", &[]), InstantiateMsg {}).unwrap();
    instantiate(&mut deps, mock_info("other", &[]), InstantiateMsg {}).unwrap();
    assert_eq!("other", owner_of(&deps).owner);
}

#[test]
fn owner_of_an_empty_store_is_not_found() {
    let deps = Storage::new();
    let expected = StdError::NotFound { kind: "umee_cosmwasm::state::State".to_string() };
    assert_eq!(query_owner(&deps), Err(expected.clone()));
    assert_eq!(query(&deps, QueryMsg::GetOwner {}), Err(expected));
}

#[test]
fn change_owner_on_an_empty_store_is_not_found() {
    let mut deps = Storage::new();
    let res = try_change_owner(&mut deps, mock_info("creator", &[]), "creator".to_string());
    assert_eq!(
        res,
        Err(ContractError::Std(StdError::NotFound {
            kind: "umee_cosmwasm::state::State".to_string()
        }))
    );
    assert_eq!(deps, Storage::new());
}

#[test]
fn refused_change_leaves_the_store() {
    let mut deps = Storage::new();
    instantiate(&mut deps, mock_info("creator", &[]), InstantiateMsg {}).unwrap();
    let before = deps.clone();
    let res = try_change_owner(&mut deps, mock_info("creatos", &[]), "creatos".to_string());
    assert_eq!(res, Err(ContractError::Unauthorized {}));
    assert_eq!(deps, before);
    // the empty sender is no owner either
    let res = try_change_owner(&mut deps, mock_info("", &[]), "x".to_string());
    assert_eq!(res, Err(ContractError::Unauthorized {}));
    assert_eq!(deps, before);
}

#[test]
fn accepted_change_sets_the_owner_only() {
    let mut deps = Storage::new();
    instantiate(&mut deps, mock_info("creator", &[]), InstantiateMsg {}).unwrap();
    let before = deps.clone();
    let res = try_change_owner(&mut deps, mock_info("creator", &[]), "next".to_string());
    assert_eq!(
        res,
        Ok(Response { messages: vec![], attributes: vec![attr("method", "change_owner")] })
    );
    assert_eq!(deps.state, Some(State { owner: "next".to_string() }));
    assert_eq!(deps.contract_info, before.contract_info);
    // the former owner has lost the right
    let res = try_change_owner(&mut deps, mock_info("creator", &[]), "creator".to_string());
    assert_eq!(res, Err(ContractError::Unauthorized {}));
    // the owner may name itself
    let res = try_change_owner(&mut deps, mock_info("next", &[]), "next".to_string());
    assert!(res.is_ok());
    assert_eq!("next", owner_of(&deps).owner);
}

#[test]
fn chain_message_is_sent_under_its_name() {
    let record = StructUmeeMsg::borrow(BorrowParams {
        borrower: "bob".to_string(),
        asset: coin(5, "uumee"),
    });
    let res = msg_chain(record.clone());
    assert_eq!(
        res,
        Ok(Response { messages: vec![record.clone()], attributes: vec![attr("method", "borrow")] })
    );
    let mut deps = Storage::new();
    let res = execute(&mut deps, mock_info("anyone", &[]), ExecuteMsg::Chain(record.clone()));
    assert_eq!(
        res,
        Ok(Response { messages: vec![record], attributes: vec![attr("method", "borrow")] })
    );
    assert_eq!(deps, Storage::new());
}

#[test]
fn chain_message_with_extra_fields_is_sent_as_it_is() {
    let mut record = StructUmeeMsg::supply(supply_params());
    record.withdraw = Some(withdraw_params());
    let res = msg_chain(record.clone()).unwrap();
    assert_eq!(res.messages, vec![record]);
    assert_eq!(res.attributes, vec![attr("method", "supply")]);
}

#[test]
fn invalid_chain_message_is_refused() {
    let invalid = ContractError::CustomError { val: "invalid umee msg".to_string() };
    // a number that the chain does not know
    assert_eq!(msg_chain(blank_msg(0)), Err(invalid.clone()));
    assert_eq!(msg_chain(blank_msg(10)), Err(invalid.clone()));
    assert_eq!(msg_chain(blank_msg(u16::MAX)), Err(invalid.clone()));
    let mut unknown = StructUmeeMsg::supply(supply_params());
    unknown.assigned_msg = 10;
    assert_eq!(msg_chain(unknown), Err(invalid.clone()));
    // a known number whose field is empty
    for assigned_msg in 1..=9 {
        assert_eq!(msg_chain(blank_msg(assigned_msg)), Err(invalid.clone()));
    }
    // a known number with another message's field
    let mut crossed = StructUmeeMsg::supply(supply_params());
    crossed.assigned_msg = 2;
    assert_eq!(msg_chain(crossed.clone()), Err(invalid.clone()));
    let mut deps = Storage::new();
    instantiate(&mut deps, mock_info("creator", &[]), InstantiateMsg {}).unwrap();
    let before = deps.clone();
    let res = execute(&mut deps, mock_info("creator", &[]), ExecuteMsg::Chain(crossed));
    assert_eq!(res, Err(invalid));
    assert_eq!(deps, before);
}

#[test]
fn supply_and_withdraw_are_recorded_as_lend_asset() {
    let res = execute_lend(supply_params());
    assert_eq!(
        res,
        Ok(Response {
            messages: vec![StructUmeeMsg::supply(supply_params())],
            attributes: vec![attr("method", "lend_asset")],
        })
    );
    let res = execute_withdraw(withdraw_params());
    assert_eq!(
        res,
        Ok(Response {
            messages: vec![StructUmeeMsg::withdraw(withdraw_params())],
            attributes: vec![attr("method", "lend_asset")],
        })
    );
    assert_eq!(execute_leverage(UmeeMsgLeverage::Supply(supply_params())), execute_lend(supply_params()));
    assert_eq!(
        execute_leverage(UmeeMsgLeverage::Withdraw(withdraw_params())),
        execute_withdraw(withdraw_params())
    );
}

#[test]
fn supply_message_is_the_leverage_supply() {
    let mut deps = Storage::new();
    let direct = execute(&mut deps, mock_info("alice", &[]), ExecuteMsg::Supply(supply_params()));
    let wrapped = execute(
        &mut deps,
        mock_info("alice", &[]),
        ExecuteMsg::Umee(UmeeMsg::Leverage(UmeeMsgLeverage::Supply(supply_params()))),
    );
    assert_eq!(direct, wrapped);
    let res = direct.unwrap();
    assert_eq!(res.messages.len(), 1);
    assert_eq!(res.messages[0].assigned_msg, 1);
    assert_eq!(res.messages[0].supply, Some(supply_params()));
    assert_eq!(res.attributes, vec![attr("method", "lend_asset")]);
    assert_eq!(deps, Storage::new());
}

#[test]
fn every_other_leverage_message_is_sent_under_its_name() {
    let cases: Vec<(UmeeMsgLeverage, StructUmeeMsg, &str, u16)> = vec![
        (
            UmeeMsgLeverage::MaxWithDraw(MsgMaxWithDrawParams {
                supplier: "alice".to_string(),
                denom: "uumee".to_string(),
            }),
            StructUmeeMsg {
                max_withdraw: Some(MsgMaxWithDrawParams {
                    supplier: "alice".to_string(),
                    denom: "uumee".to_string(),
                }),
                ..blank_msg(9)
            },
            "max_withdraw",
            9,
        ),
        (
            UmeeMsgLeverage::Collateralize(CollateralizeParams {
                borrower: "bob".to_string(),
                coin: coin(1, "u/uumee"),
            }),
            StructUmeeMsg {
                collateralize: Some(CollateralizeParams {
                    borrower: "bob".to_string(),
                    coin: coin(1, "u/uumee"),
                }),
                ..blank_msg(3)
            },
            "collateralize",
            3,
        ),
        (
            UmeeMsgLeverage::Decollateralize(DecollateralizeParams {
                borrower: "bob".to_string(),
                coin: coin(2, "u/uumee"),
            }),
            StructUmeeMsg {
                decollateralize: Some(DecollateralizeParams {
                    borrower: "bob".to_string(),
                    coin: coin(2, "u/uumee"),
                }),
                ..blank_msg(4)
            },
            "decollateralize",
            4,
        ),
        (
            UmeeMsgLeverage::Borrow(BorrowParams { borrower: "bob".to_string(), asset: coin(3, "uumee") }),
            StructUmeeMsg {
                borrow: Some(BorrowParams { borrower: "bob".to_string(), asset: coin(3, "uumee") }),
                ..blank_msg(5)
            },
            "borrow",
            5,
        ),
        (
            UmeeMsgLeverage::Repay(RepayParams { borrower: "bob".to_string(), asset: coin(4, "uumee") }),
            StructUmeeMsg {
                repay: Some(RepayParams { borrower: "bob".to_string(), asset: coin(4, "uumee") }),
                ..blank_msg(6)
            },
            "repay",
            6,
        ),
        (
            UmeeMsgLeverage::Liquidate(LiquidateParams {
                liquidator: "carol".to_string(),
                borrower: "bob".to_string(),
                repayment: coin(5, "uumee"),
                reward: coin(6, "u/uatom"),
            }),
            StructUmeeMsg {
                liquidate: Some(LiquidateParams {
                    liquidator: "carol".to_string(),
                    borrower: "bob".to_string(),
                    repayment: coin(5, "uumee"),
                    reward: coin(6, "u/uatom"),
                }),
                ..blank_msg(7)
            },
            "liquidate",
            7,
        ),
        (
            UmeeMsgLeverage::SupplyCollateral(SupplyCollateralParams {
                supplier: "alice".to_string(),
                asset: coin(7, "uumee"),
            }),
            StructUmeeMsg {
                supply_collateralize: Some(SupplyCollateralParams {
                    supplier: "alice".to_string(),
                    asset: coin(7, "uumee"),
                }),
                ..blank_msg(8)
            },
            "supply_collateralize",
            8,
        ),
    ];
    for (msg, record, name, number) in cases {
        assert_eq!(record.assigned_msg, number);
        let res = execute_leverage(msg.clone());
        assert_eq!(
            res,
            Ok(Response { messages: vec![record.clone()], attributes: vec![attr("method", name)] })
        );
        let mut deps = Storage::new();
        let routed = execute(
            &mut deps,
            mock_info("anyone", &[]),
            ExecuteMsg::Umee(UmeeMsg::Leverage(msg)),
        );
        assert_eq!(routed, res);
        assert_eq!(deps, Storage::new());
    }
}

#[test]
fn response_keeps_the_order_of_what_is_added() {
    let first = StructUmeeMsg::supply(supply_params());
    let second = StructUmeeMsg::withdraw(withdraw_params());
    let res = Response::new()
        .add_attribute("a".to_string(), "1".to_string())
        .add_message(first.clone())
        .add_attribute("b".to_string(), "2".to_string())
        .add_message(second.clone());
    assert_eq!(res.attributes, vec![attr("a", "1"), attr("b", "2")]);
    assert_eq!(res.messages, vec![first, second]);
    assert_eq!(Response::new(), Response { messages: vec![], attributes: vec![] });
}

#[test]
fn store_keeps_what_is_saved() {
    let mut deps = Storage::new();
    assert_eq!(deps, Storage { state: None, contract_info: None });
    deps.save(State { owner: "a".to_string() });
    assert_eq!(deps.load(), Ok(State { owner: "a".to_string() }));
    assert_eq!(deps.contract_info, None);
    deps.set_contract_version("name".to_string(), "1.2.3".to_string());
    assert_eq!(
        deps.contract_info,
        Some(ContractVersion { contract: "name".to_string(), version: "1.2.3".to_string() })
    );
    deps.save(State { owner: "b".to_string() });
    assert_eq!(deps.load(), Ok(State { owner: "b".to_string() }));
    assert_eq!(
        deps.contract_info,
        Some(ContractVersion { contract: "name".to_string(), version: "1.2.3".to_string() })
    );
}
