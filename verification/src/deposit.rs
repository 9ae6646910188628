//! Records of the deposit contract: native coins, cw20 tokens (with the
//! time they are staked until) and cw721 tokens deposited by their owners.
use vstd::prelude::*;

use crate::common::{Coin, Expiration};

verus! {

/// A cw20 deposit, staked until `stake_time`.
#[derive(Clone, Debug, PartialEq, Eq)]
pub struct Cw20Deposits {
    pub count: i32,
    pub owner: String,
    pub contract: String,
    pub amount: u128,
    pub stake_time: Expiration,
}

/// A native deposit.
#[derive(Clone, Debug, PartialEq, Eq)]
pub struct Deposits {
    pub count: i32,
    pub owner: String,
    pub coins: Coin,
}

/// A deposited cw721 token.
#[derive(Clone, Debug, PartialEq, Eq)]
pub struct Cw721Deposits {
    pub owner: String,
    pub contract: String,
    pub token_id: String,
}

/// Why a deposit operation was refused.
#[derive(Debug, PartialEq)]
pub enum ContractError {
    Std(cosmwasm_std::StdError),
    CustomError { val: String },
    InvalidOwner,
    InvalidCoin,
    NoCw20ToWithdraw,
    NoCw721ToWithdraw { token_id: String },
}

} // verus!
