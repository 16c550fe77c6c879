//! Amounts of a token.

use vstd::prelude::*;

verus! {

/// An amount of the token named by `denom`.
#[derive(Clone, Debug, PartialEq)]
pub struct Coin {
    pub denom: String,
    pub amount: u128,
}

} // verus!
