//! The wire form of a message to the chain's modules.
//!
//! The chain reads a message as one record: a number that names the message,
//! and one optional field of parameters for each message it knows. A record
//! is valid when the field that its number names is filled.

use vstd::prelude::*;
use vstd::string::*;
use crate::msg_leverage::{
    BorrowParams, CollateralizeParams, DecollateralizeParams, LiquidateParams, MsgMaxWithDrawParams,
    RepayParams, SupplyCollateralParams, SupplyParams, UmeeMsgLeverage, WithdrawParams,
    ASSIGNED_MSG_BORROW, ASSIGNED_MSG_COLLATERALIZE, ASSIGNED_MSG_DECOLLATERALIZE,
    ASSIGNED_MSG_LIQUIDATE, ASSIGNED_MSG_MAX_WITHDRAW, ASSIGNED_MSG_REPAY, ASSIGNED_MSG_SUPPLY,
    ASSIGNED_MSG_SUPPLY_COLLATERALIZE, ASSIGNED_MSG_WITHDRAW,
};

verus! {

/// A message to one of the chain's modules.
#[derive(Clone, Debug, PartialEq)]
pub enum UmeeMsg {
    /// A message to the leverage module.
    Leverage(UmeeMsgLeverage),
}

/// A message as the chain reads it.
#[derive(Clone, Debug, PartialEq)]
pub struct StructUmeeMsg {
    /// The number that names the message.
    pub assigned_msg: u16,
    /// The parameters of the message that supplies coins to the module.
    pub supply: Option<SupplyParams>,
    /// The parameters of the message that withdraws supplied coins from the module.
    pub withdraw: Option<WithdrawParams>,
    /// The parameters of the message that sets uTokens as collateral, which moves them to the
    /// module.
    pub collateralize: Option<CollateralizeParams>,
    /// The parameters of the message that takes uTokens back from collateral.
    pub decollateralize: Option<DecollateralizeParams>,
    /// The parameters of the message that borrows tokens from the module against collateral.
    pub borrow: Option<BorrowParams>,
    /// The parameters of the message that repays borrowed tokens and interest.
    pub repay: Option<RepayParams>,
    /// The parameters of the message that repays another account's loan in exchange for some of its
    /// collateral.
    pub liquidate: Option<LiquidateParams>,
    /// The parameters of the message that supplies coins and sets the uTokens received as
    /// collateral.
    pub supply_collateralize: Option<SupplyCollateralParams>,
    /// The parameters of the message that withdraws as much of a supplied token as the module
    /// allows.
    pub max_withdraw: Option<MsgMaxWithDrawParams>,
}

/// The name under which the chain knows the message with the given number.
pub open spec fn assigned_name(assigned_msg: u16) -> Seq<char> {
    if assigned_msg == ASSIGNED_MSG_SUPPLY {
        "supply"@
    } else if assigned_msg == ASSIGNED_MSG_WITHDRAW {
        "withdraw"@
    } else if assigned_msg == ASSIGNED_MSG_COLLATERALIZE {
        "collateralize"@
    } else if assigned_msg == ASSIGNED_MSG_DECOLLATERALIZE {
        "decollateralize"@
    } else if assigned_msg == ASSIGNED_MSG_BORROW {
        "borrow"@
    } else if assigned_msg == ASSIGNED_MSG_REPAY {
        "repay"@
    } else if assigned_msg == ASSIGNED_MSG_LIQUIDATE {
        "liquidate"@
    } else if assigned_msg == ASSIGNED_MSG_SUPPLY_COLLATERALIZE {
        "supply_collateralize"@
    } else if assigned_msg == ASSIGNED_MSG_MAX_WITHDRAW {
        "max_withdraw"@
    } else {
        "unrecognized_msg"@
    }
}

impl StructUmeeMsg {
    /// The record with the given number and no field filled.
    pub open spec fn blank(assigned_msg: u16) -> StructUmeeMsg {
        StructUmeeMsg {
            assigned_msg,
            supply: None,
            withdraw: None,
            collateralize: None,
            decollateralize: None,
            borrow: None,
            repay: None,
            liquidate: None,
            supply_collateralize: None,
            max_withdraw: None,
        }
    }

    /// The record that carries `msg`: its number, its parameters in their
    /// field, and every other field empty.
    pub open spec fn of(msg: UmeeMsg) -> StructUmeeMsg {
        match msg {
            UmeeMsg::Leverage(UmeeMsgLeverage::Supply(params)) => StructUmeeMsg {
                supply: Some(params),
                ..Self::blank(ASSIGNED_MSG_SUPPLY)
            },
            UmeeMsg::Leverage(UmeeMsgLeverage::Withdraw(params)) => StructUmeeMsg {
                withdraw: Some(params),
                ..Self::blank(ASSIGNED_MSG_WITHDRAW)
            },
            UmeeMsg::Leverage(UmeeMsgLeverage::Collateralize(params)) => StructUmeeMsg {
                collateralize: Some(params),
                ..Self::blank(ASSIGNED_MSG_COLLATERALIZE)
            },
            UmeeMsg::Leverage(UmeeMsgLeverage::Decollateralize(params)) => StructUmeeMsg {
                decollateralize: Some(params),
                ..Self::blank(ASSIGNED_MSG_DECOLLATERALIZE)
            },
            UmeeMsg::Leverage(UmeeMsgLeverage::Borrow(params)) => StructUmeeMsg {
                borrow: Some(params),
                ..Self::blank(ASSIGNED_MSG_BORROW)
            },
            UmeeMsg::Leverage(UmeeMsgLeverage::Repay(params)) => StructUmeeMsg {
                repay: Some(params),
                ..Self::blank(ASSIGNED_MSG_REPAY)
            },
            UmeeMsg::Leverage(UmeeMsgLeverage::Liquidate(params)) => StructUmeeMsg {
                liquidate: Some(params),
                ..Self::blank(ASSIGNED_MSG_LIQUIDATE)
            },
            UmeeMsg::Leverage(UmeeMsgLeverage::SupplyCollateral(params)) => StructUmeeMsg {
                supply_collateralize: Some(params),
                ..Self::blank(ASSIGNED_MSG_SUPPLY_COLLATERALIZE)
            },
            UmeeMsg::Leverage(UmeeMsgLeverage::MaxWithDraw(params)) => StructUmeeMsg {
                max_withdraw: Some(params),
                ..Self::blank(ASSIGNED_MSG_MAX_WITHDRAW)
            },
        }
    }

    /// The message that the record's number names, with the parameters found
    /// in its field; `None` when the number names no message or the field is
    /// empty.
    pub open spec fn msg(self) -> Option<UmeeMsg> {
        if self.assigned_msg == ASSIGNED_MSG_SUPPLY {
            match self.supply {
                Some(params) => Some(UmeeMsg::Leverage(UmeeMsgLeverage::Supply(params))),
                None => None,
            }
        } else if self.assigned_msg == ASSIGNED_MSG_WITHDRAW {
            match self.withdraw {
                Some(params) => Some(UmeeMsg::Leverage(UmeeMsgLeverage::Withdraw(params))),
                None => None,
            }
        } else if self.assigned_msg == ASSIGNED_MSG_COLLATERALIZE {
            match self.collateralize {
                Some(params) => Some(UmeeMsg::Leverage(UmeeMsgLeverage::Collateralize(params))),
                None => None,
            }
        } else if self.assigned_msg == ASSIGNED_MSG_DECOLLATERALIZE {
            match self.decollateralize {
                Some(params) => Some(UmeeMsg::Leverage(UmeeMsgLeverage::Decollateralize(params))),
                None => None,
            }
        } else if self.assigned_msg == ASSIGNED_MSG_BORROW {
            match self.borrow {
                Some(params) => Some(UmeeMsg::Leverage(UmeeMsgLeverage::Borrow(params))),
                None => None,
            }
        } else if self.assigned_msg == ASSIGNED_MSG_REPAY {
            match self.repay {
                Some(params) => Some(UmeeMsg::Leverage(UmeeMsgLeverage::Repay(params))),
                None => None,
            }
        } else if self.assigned_msg == ASSIGNED_MSG_LIQUIDATE {
            match self.liquidate {
                Some(params) => Some(UmeeMsg::Leverage(UmeeMsgLeverage::Liquidate(params))),
                None => None,
            }
        } else if self.assigned_msg == ASSIGNED_MSG_SUPPLY_COLLATERALIZE {
            match self.supply_collateralize {
                Some(params) => Some(UmeeMsg::Leverage(UmeeMsgLeverage::SupplyCollateral(params))),
                None => None,
            }
        } else if self.assigned_msg == ASSIGNED_MSG_MAX_WITHDRAW {
            match self.max_withdraw {
                Some(params) => Some(UmeeMsg::Leverage(UmeeMsgLeverage::MaxWithDraw(params))),
                None => None,
            }
        } else {
            None
        }
    }

    /// Whether the field that the record's number names is filled.
    pub fn valid(&self) -> (ok: bool)
        ensures
            ok == self.msg().is_some(),
    {
        if self.assigned_msg == ASSIGNED_MSG_SUPPLY {
            self.supply.is_some()
        } else if self.assigned_msg == ASSIGNED_MSG_WITHDRAW {
            self.withdraw.is_some()
        } else if self.assigned_msg == ASSIGNED_MSG_COLLATERALIZE {
            self.collateralize.is_some()
        } else if self.assigned_msg == ASSIGNED_MSG_DECOLLATERALIZE {
            self.decollateralize.is_some()
        } else if self.assigned_msg == ASSIGNED_MSG_BORROW {
            self.borrow.is_some()
        } else if self.assigned_msg == ASSIGNED_MSG_REPAY {
            self.repay.is_some()
        } else if self.assigned_msg == ASSIGNED_MSG_LIQUIDATE {
            self.liquidate.is_some()
        } else if self.assigned_msg == ASSIGNED_MSG_SUPPLY_COLLATERALIZE {
            self.supply_collateralize.is_some()
        } else if self.assigned_msg == ASSIGNED_MSG_MAX_WITHDRAW {
            self.max_withdraw.is_some()
        } else {
            false
        }
    }

    /// The name under which the chain knows the record's number, and
    /// `unrecognized_msg` for a number it does not know.
    pub fn assigned_str(&self) -> (name: String)
        ensures
            name@ == assigned_name(self.assigned_msg),
    {
        if self.assigned_msg == ASSIGNED_MSG_SUPPLY {
            String::from_str("supply")
        } else if self.assigned_msg == ASSIGNED_MSG_WITHDRAW {
            String::from_str("withdraw")
        } else if self.assigned_msg == ASSIGNED_MSG_COLLATERALIZE {
            String::from_str("collateralize")
        } else if self.assigned_msg == ASSIGNED_MSG_DECOLLATERALIZE {
            String::from_str("decollateralize")
        } else if self.assigned_msg == ASSIGNED_MSG_BORROW {
            String::from_str("borrow")
        } else if self.assigned_msg == ASSIGNED_MSG_REPAY {
            String::from_str("repay")
        } else if self.assigned_msg == ASSIGNED_MSG_LIQUIDATE {
            String::from_str("liquidate")
        } else if self.assigned_msg == ASSIGNED_MSG_SUPPLY_COLLATERALIZE {
            String::from_str("supply_collateralize")
        } else if self.assigned_msg == ASSIGNED_MSG_MAX_WITHDRAW {
            String::from_str("max_withdraw")
        } else {
            String::from_str("unrecognized_msg")
        }
    }

    fn empty(assigned_msg: u16) -> (record: StructUmeeMsg)
        ensures
            record == Self::blank(assigned_msg),
    {
        StructUmeeMsg {
            assigned_msg,
            supply: None,
            withdraw: None,
            collateralize: None,
            decollateralize: None,
            borrow: None,
            repay: None,
            liquidate: None,
            supply_collateralize: None,
            max_withdraw: None,
        }
    }

    /// The record of the message that supplies coins to the module.
    pub fn supply(params: SupplyParams) -> (record: StructUmeeMsg)
        ensures
            record == Self::of(UmeeMsg::Leverage(UmeeMsgLeverage::Supply(params))),
    {
        let mut record = Self::empty(ASSIGNED_MSG_SUPPLY);
        record.supply = Some(params);
        record
    }

    /// The record of the message that withdraws supplied coins from the module.
    pub fn withdraw(params: WithdrawParams) -> (record: StructUmeeMsg)
        ensures
            record == Self::of(UmeeMsg::Leverage(UmeeMsgLeverage::Withdraw(params))),
    {
        let mut record = Self::empty(ASSIGNED_MSG_WITHDRAW);
        record.withdraw = Some(params);
        record
    }

    /// The record of the message that sets uTokens as collateral, which moves them to the module.
    pub fn collateralize(params: CollateralizeParams) -> (record: StructUmeeMsg)
        ensures
            record == Self::of(UmeeMsg::Leverage(UmeeMsgLeverage::Collateralize(params))),
    {
        let mut record = Self::empty(ASSIGNED_MSG_COLLATERALIZE);
        record.collateralize = Some(params);
        record
    }

    /// The record of the message that takes uTokens back from collateral.
    pub fn decollateralize(params: DecollateralizeParams) -> (record: StructUmeeMsg)
        ensures
            record == Self::of(UmeeMsg::Leverage(UmeeMsgLeverage::Decollateralize(params))),
    {
        let mut record = Self::empty(ASSIGNED_MSG_DECOLLATERALIZE);
        record.decollateralize = Some(params);
        record
    }

    /// The record of the message that borrows tokens from the module against collateral.
    pub fn borrow(params: BorrowParams) -> (record: StructUmeeMsg)
        ensures
            record == Self::of(UmeeMsg::Leverage(UmeeMsgLeverage::Borrow(params))),
    {
        let mut record = Self::empty(ASSIGNED_MSG_BORROW);
        record.borrow = Some(params);
        record
    }

    /// The record of the message that repays borrowed tokens and interest.
    pub fn repay(params: RepayParams) -> (record: StructUmeeMsg)
        ensures
            record == Self::of(UmeeMsg::Leverage(UmeeMsgLeverage::Repay(params))),
    {
        let mut record = Self::empty(ASSIGNED_MSG_REPAY);
        record.repay = Some(params);
        record
    }

    /// The record of the message that repays another account's loan in exchange for some of its
    /// collateral.
    pub fn liquidate(params: LiquidateParams) -> (record: StructUmeeMsg)
        ensures
            record == Self::of(UmeeMsg::Leverage(UmeeMsgLeverage::Liquidate(params))),
    {
        let mut record = Self::empty(ASSIGNED_MSG_LIQUIDATE);
        record.liquidate = Some(params);
        record
    }

    /// The record of the message that supplies coins and sets the uTokens received as collateral.
    pub fn supply_collateralize(params: SupplyCollateralParams) -> (record: StructUmeeMsg)
        ensures
            record == Self::of(UmeeMsg::Leverage(UmeeMsgLeverage::SupplyCollateral(params))),
    {
        let mut record = Self::empty(ASSIGNED_MSG_SUPPLY_COLLATERALIZE);
        record.supply_collateralize = Some(params);
        record
    }

    /// The record of the message that withdraws as much of a supplied token as the module allows.
    pub fn max_withdraw(params: MsgMaxWithDrawParams) -> (record: StructUmeeMsg)
        ensures
            record == Self::of(UmeeMsg::Leverage(UmeeMsgLeverage::MaxWithDraw(params))),
    {
        let mut record = Self::empty(ASSIGNED_MSG_MAX_WITHDRAW);
        record.max_withdraw = Some(params);
        record
    }
}

/// A record built from a message carries that message and no other, so the
/// mapping from messages to records is one-to-one and every such record is
/// valid.
pub proof fn lemma_record_carries_its_msg(msg: UmeeMsg)
    ensures
        StructUmeeMsg::of(msg).msg() == Some(msg),
{
}

/// Whether the chain knows a message with the given number.
pub open spec fn known_msg(assigned_msg: u16) -> bool {
    ASSIGNED_MSG_SUPPLY <= assigned_msg <= ASSIGNED_MSG_MAX_WITHDRAW
}

/// The chain's names tell its messages apart: two numbers that it knows have
/// different names, and none of them is named as an unknown number is.
pub proof fn lemma_assigned_names_differ(a: u16, b: u16)
    ensures
        known_msg(a) && known_msg(b) && a != b ==> assigned_name(a) != assigned_name(b),
        known_msg(a) && !known_msg(b) ==> assigned_name(a) != assigned_name(b),
{
    reveal_strlit("supply");
    reveal_strlit("withdraw");
    reveal_strlit("collateralize");
    reveal_strlit("decollateralize");
    reveal_strlit("borrow");
    reveal_strlit("repay");
    reveal_strlit("liquidate");
    reveal_strlit("supply_collateralize");
    reveal_strlit("max_withdraw");
    reveal_strlit("unrecognized_msg");
    if known_msg(a) && a != b {
        let x = assigned_name(a);
        let y = assigned_name(b);
        assert(x.len() != y.len() || x[0] != y[0]);
    }
}

} // verus!
