use umee_cosmwasm::chain_msg::StructUmeeMsg;
use umee_cosmwasm::coin::Coin;
use umee_cosmwasm::msg_leverage::{
    BorrowParams, CollateralizeParams, DecollateralizeParams, LiquidateParams,
    MsgMaxWithDrawParams, RepayParams, SupplyCollateralParams, SupplyParams, WithdrawParams,
    ASSIGNED_MSG_BORROW, ASSIGNED_MSG_COLLATERALIZE, ASSIGNED_MSG_DECOLLATERALIZE,
    ASSIGNED_MSG_LIQUIDATE, ASSIGNED_MSG_MAX_WITHDRAW, ASSIGNED_MSG_REPAY, ASSIGNED_MSG_SUPPLY,
    ASSIGNED_MSG_SUPPLY_COLLATERALIZE, ASSIGNED_MSG_WITHDRAW,
};
use umee_cosmwasm::query_leverage::{
    ASSIGNED_QUERY_AVAILABLE_BORROW, ASSIGNED_QUERY_BORROWED, ASSIGNED_QUERY_BORROWED_VALUE,
    ASSIGNED_QUERY_BORROW_APY, ASSIGNED_QUERY_COLLATERAL, ASSIGNED_QUERY_COLLATERAL_VALUE,
    ASSIGNED_QUERY_LEVERAGE_PARAMETERS, ASSIGNED_QUERY_MARKET_SIZE,
    ASSIGNED_QUERY_REGISTERED_TOKENS, ASSIGNED_QUERY_RESERVE_AMOUNT, ASSIGNED_QUERY_SUPPLIED,
    ASSIGNED_QUERY_SUPPLIED_VALUE, ASSIGNED_QUERY_SUPPLY_APY, ASSIGNED_QUERY_TOKEN_MARKET_SIZE,
};
use umee_cosmwasm::query_oracle::ASSIGNED_QUERY_EXCHANGE_RATES;

fn uumee(amount: u128) -> Coin {
    Coin { denom: "uumee".to_string(), amount }
}

fn empty_msg(assigned_msg: u16) -> StructUmeeMsg {
    StructUmeeMsg {
        assigned_msg,
        supply: None,
        withdraw: None,
        collateralize: None,
        decollateralize: None,
        borrow: None,
        repay: None,
        liquidate: None,
        supply_collateralize: None,
        max_withdraw: None,
    }
}

fn all_records() -> Vec<StructUmeeMsg> {
    vec![
        StructUmeeMsg::supply(SupplyParams { supplier: "a".to_string(), amount: uumee(1) }),
        StructUmeeMsg::withdraw(WithdrawParams { supplier: "a".to_string(), amount: uumee(2) }),
        StructUmeeMsg::collateralize(CollateralizeParams {
            borrower: "b".to_string(),
            coin: uumee(3),
        }),
        StructUmeeMsg::decollateralize(DecollateralizeParams {
            borrower: "b".to_string(),
            coin: uumee(4),
        }),
        StructUmeeMsg::borrow(BorrowParams { borrower: "b".to_string(), asset: uumee(5) }),
        StructUmeeMsg::repay(RepayParams { borrower: "b".to_string(), asset: uumee(6) }),
        StructUmeeMsg::liquidate(LiquidateParams {
            liquidator: "c".to_string(),
            borrower: "b".to_string(),
            repayment: uumee(7),
            reward: uumee(8),
        }),
        StructUmeeMsg::supply_collateralize(SupplyCollateralParams {
            supplier: "a".to_string(),
            asset: uumee(9),
        }),
        StructUmeeMsg::max_withdraw(MsgMaxWithDrawParams {
            supplier: "a".to_string(),
            denom: "uumee".to_string(),
        }),
    ]
}

#[test]
fn assigned_numbers_are_those_of_the_chain() {
    assert_eq!(
        [
            ASSIGNED_MSG_SUPPLY,
            ASSIGNED_MSG_WITHDRAW,
            ASSIGNED_MSG_COLLATERALIZE,
            ASSIGNED_MSG_DECOLLATERALIZE,
            ASSIGNED_MSG_BORROW,
            ASSIGNED_MSG_REPAY,
            ASSIGNED_MSG_LIQUIDATE,
            ASSIGNED_MSG_SUPPLY_COLLATERALIZE,
            ASSIGNED_MSG_MAX_WITHDRAW,
        ],
        [1, 2, 3, 4, 5, 6, 7, 8, 9]
    );
    assert_eq!(
        [
            ASSIGNED_QUERY_BORROWED,
            ASSIGNED_QUERY_EXCHANGE_RATES,
            ASSIGNED_QUERY_REGISTERED_TOKENS,
            ASSIGNED_QUERY_LEVERAGE_PARAMETERS,
            ASSIGNED_QUERY_BORROWED_VALUE,
            ASSIGNED_QUERY_SUPPLIED,
            ASSIGNED_QUERY_SUPPLIED_VALUE,
            ASSIGNED_QUERY_AVAILABLE_BORROW,
            ASSIGNED_QUERY_BORROW_APY,
            ASSIGNED_QUERY_SUPPLY_APY,
            ASSIGNED_QUERY_MARKET_SIZE,
            ASSIGNED_QUERY_TOKEN_MARKET_SIZE,
            ASSIGNED_QUERY_RESERVE_AMOUNT,
            ASSIGNED_QUERY_COLLATERAL,
            ASSIGNED_QUERY_COLLATERAL_VALUE,
        ],
        [1, 2, 3, 4, 5, 6, 7, 8, 9, 10, 11, 12, 13, 14, 15]
    );
}

#[test]
fn message_records_carry_number_and_parameters() {
    let records = all_records();
    for (i, record) in records.iter().enumerate() {
        assert_eq!(record.assigned_msg as usize, i + 1);
        assert!(record.valid());
        let filled = [
            record.supply.is_some(),
            record.withdraw.is_some(),
            record.collateralize.is_some(),
            record.decollateralize.is_some(),
            record.borrow.is_some(),
            record.repay.is_some(),
            record.liquidate.is_some(),
            record.supply_collateralize.is_some(),
            record.max_withdraw.is_some(),
        ];
        for (j, is_filled) in filled.iter().enumerate() {
            assert_eq!(*is_filled, i == j);
        }
    }
    assert_eq!(
        records[4],
        StructUmeeMsg {
            borrow: Some(BorrowParams { borrower: "b".to_string(), asset: uumee(5) }),
            ..empty_msg(5)
        }
    );
    assert_eq!(
        records[6].liquidate,
        Some(LiquidateParams {
            liquidator: "c".to_string(),
            borrower: "b".to_string(),
            repayment: uumee(7),
            reward: uumee(8),
        })
    );
}

#[test]
fn assigned_names_are_those_of_the_chain() {
    let names: Vec<String> = all_records().iter().map(|record| record.assigned_str()).collect();
    assert_eq!(
        names,
        vec![
            "supply",
            "withdraw",
            "collateralize",
            "decollateralize",
            "borrow",
            "repay",
            "liquidate",
            "supply_collateralize",
            "max_withdraw",
        ]
    );
    // the name goes by the number alone
    for assigned_msg in 1..=9u16 {
        assert_eq!(empty_msg(assigned_msg).assigned_str(), names[assigned_msg as usize - 1]);
    }
    for assigned_msg in [0u16, 10, 11, 256, u16::MAX] {
        assert_eq!(empty_msg(assigned_msg).assigned_str(), "unrecognized_msg");
    }
}

#[test]
fn assigned_names_tell_the_messages_apart() {
    let names: Vec<String> = (1..=9u16).map(|n| empty_msg(n).assigned_str()).collect();
    for (i, a) in names.iter().enumerate() {
        assert_ne!(a, "unrecognized_msg");
        for (j, b) in names.iter().enumerate() {
            assert_eq!(a == b, i == j);
        }
    }
}

#[test]
fn message_record_is_valid_when_its_own_field_is_filled() {
    for assigned_msg in 0..=20u16 {
        assert!(!empty_msg(assigned_msg).valid());
    }
    for record in all_records() {
        let number = record.assigned_msg;
        for other in 0..=10u16 {
            let mut moved = record.clone();
            moved.assigned_msg = other;
            assert_eq!(moved.valid(), other == number);
        }
    }
}
