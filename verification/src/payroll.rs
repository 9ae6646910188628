//! Errors of the payroll factory that starts vesting contracts.
use vstd::prelude::*;

use crate::common::{ParseReplyError, PaymentError};

verus! {

/// The ownership error of `cw_ownable`, held opaque.
#[verifier::external_type_specification]
#[verifier::external_body]
pub struct ExOwnershipError(cw_ownable::OwnershipError);

/// Why a payroll factory operation was refused.
#[derive(Debug, PartialEq)]
pub enum ContractError {
    Std(cosmwasm_std::StdError),
    Ownable(cw_ownable::OwnershipError),
    PaymentError(PaymentError),
    Unauthorized,
    OwnerMissmatch { actual: Option<String>, expected: Option<String> },
    ParseReplyError(ParseReplyError),
    UnknownReplyId { id: u64 },
}

} // verus!
