//! The messages that the chain's leverage module executes.

use vstd::prelude::*;
use crate::coin::Coin;

verus! {

/// The number the chain assigns to the message that supplies coins to the module.
pub const ASSIGNED_MSG_SUPPLY: u16 = 1;

/// The number the chain assigns to the message that withdraws supplied coins from the module.
pub const ASSIGNED_MSG_WITHDRAW: u16 = 2;

/// The number the chain assigns to the message that sets uTokens as collateral, which moves them to
/// the module.
pub const ASSIGNED_MSG_COLLATERALIZE: u16 = 3;

/// The number the chain assigns to the message that takes uTokens back from collateral.
pub const ASSIGNED_MSG_DECOLLATERALIZE: u16 = 4;

/// The number the chain assigns to the message that borrows tokens from the module against
/// collateral.
pub const ASSIGNED_MSG_BORROW: u16 = 5;

/// The number the chain assigns to the message that repays borrowed tokens and interest.
pub const ASSIGNED_MSG_REPAY: u16 = 6;

/// The number the chain assigns to the message that repays another account's loan in exchange for
/// some of its collateral.
pub const ASSIGNED_MSG_LIQUIDATE: u16 = 7;

/// The number the chain assigns to the message that supplies coins and sets the uTokens received as
/// collateral.
pub const ASSIGNED_MSG_SUPPLY_COLLATERALIZE: u16 = 8;

/// The number the chain assigns to the message that withdraws as much of a supplied token as the
/// module allows.
pub const ASSIGNED_MSG_MAX_WITHDRAW: u16 = 9;

/// Every message of the leverage module, each with its parameters.
#[derive(Clone, Debug, PartialEq)]
pub enum UmeeMsgLeverage {
    /// Supplies coins to the module.
    Supply(SupplyParams),
    /// Withdraws supplied coins from the module.
    Withdraw(WithdrawParams),
    /// Withdraws as much of a supplied token as the module allows.
    MaxWithDraw(MsgMaxWithDrawParams),
    /// Sets uTokens as collateral, which moves them to the module.
    Collateralize(CollateralizeParams),
    /// Takes uTokens back from collateral.
    Decollateralize(DecollateralizeParams),
    /// Borrows tokens from the module against collateral.
    Borrow(BorrowParams),
    /// Repays borrowed tokens and interest.
    Repay(RepayParams),
    /// Repays another account's loan in exchange for some of its collateral.
    Liquidate(LiquidateParams),
    /// Supplies coins and sets the uTokens received as collateral.
    SupplyCollateral(SupplyCollateralParams),
}

/// The parameters of the message that supplies coins to the module.
#[derive(Clone, Debug, PartialEq)]
pub struct SupplyParams {
    /// The account that supplies and signs.
    pub supplier: String,
    /// What is supplied.
    pub amount: Coin,
}

/// The parameters of the message that withdraws supplied coins from the module.
#[derive(Clone, Debug, PartialEq)]
pub struct WithdrawParams {
    /// The account that withdraws and signs.
    pub supplier: String,
    /// What is withdrawn.
    pub amount: Coin,
}

/// The parameters of the message that sets uTokens as collateral, which moves them to the module.
#[derive(Clone, Debug, PartialEq)]
pub struct CollateralizeParams {
    /// The account that adds collateral and signs.
    pub borrower: String,
    /// The uTokens set as collateral.
    pub coin: Coin,
}

/// The parameters of the message that takes uTokens back from collateral.
#[derive(Clone, Debug, PartialEq)]
pub struct DecollateralizeParams {
    /// The account that removes collateral and signs.
    pub borrower: String,
    /// The uTokens taken back.
    pub coin: Coin,
}

/// The parameters of the message that borrows tokens from the module against collateral.
#[derive(Clone, Debug, PartialEq)]
pub struct BorrowParams {
    /// The account that borrows and signs.
    pub borrower: String,
    /// What is borrowed.
    pub asset: Coin,
}

/// The parameters of the message that repays borrowed tokens and interest.
#[derive(Clone, Debug, PartialEq)]
pub struct RepayParams {
    /// The account that repays and signs.
    pub borrower: String,
    /// What is repaid.
    pub asset: Coin,
}

/// The parameters of the message that repays another account's loan in exchange for some of its
/// collateral.
#[derive(Clone, Debug, PartialEq)]
pub struct LiquidateParams {
    /// The account that liquidates and signs.
    pub liquidator: String,
    /// The account whose loan is repaid.
    pub borrower: String,
    /// What is repaid.
    pub repayment: Coin,
    /// The collateral asked in exchange.
    pub reward: Coin,
}

/// The parameters of the message that withdraws as much of a supplied token as the module allows.
#[derive(Clone, Debug, PartialEq)]
pub struct MsgMaxWithDrawParams {
    /// The account that withdraws and signs.
    pub supplier: String,
    /// The token withdrawn.
    pub denom: String,
}

/// The parameters of the message that supplies coins and sets the uTokens received as collateral.
#[derive(Clone, Debug, PartialEq)]
pub struct SupplyCollateralParams {
    /// The account that supplies and signs.
    pub supplier: String,
    /// What is supplied.
    pub asset: Coin,
}

} // verus!
