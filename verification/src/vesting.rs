//! Vesting payments: checking the parameters a vesting contract is created
//! with, and how much of a payment has vested at a given time.
use vstd::prelude::*;
use vstd::string::StrSliceExecFns;
use vstd::utf8::encode_utf8;

use crate::common::{checked_sub_u128, overflow_error_of, OverflowOperation};
use crate::curve::{lemma_falling_steps_pass, lemma_steps_fall, steps_rise, curve_value, decreasing_check, lemma_value_in_range, lemma_value_nonincreasing, evaluates_at, has_range, range_spec, CurveError, CurveModel, VestingCurve};

verus! {

/// Longest title a vesting payment may carry, in characters.
pub const MAX_TITLE_CHARS: usize = 280;

/// A denomination as given by a user, not yet checked to point to an asset.
#[derive(Clone, Debug, PartialEq, Eq)]
pub enum UncheckedDenom {
    Native(String),
    Cw20(String),
}

/// A denomination that was checked to point to a valid asset.
#[derive(Clone, Debug, PartialEq, Eq)]
pub enum CheckedDenom {
    Native(String),
    Cw20(String),
}

/// Why a denomination was refused.
#[derive(Debug, PartialEq)]
pub enum DenomError {
    Std(cosmwasm_std::StdError),
    InvalidCw20 { err: cosmwasm_std::StdError },
    NativeDenomLength { len: usize },
    NonAlphabeticAscii,
    InvalidCharacter { c: char },
}

/// Why vesting parameters were refused.
#[derive(Debug, PartialEq)]
pub enum ContractError {
    Std(cosmwasm_std::StdError),
    Curve(CurveError),
    Denom(DenomError),
    NothingToVest,
    NeverFullyVested,
    VestsDifferently,
    InvalidTitle,
}

pub open spec fn is_ascii_alphabetic(c: char) -> bool {
    ('a' <= c && c <= 'z') || ('A' <= c && c <= 'Z')
}

pub open spec fn is_ascii_alphanumeric(c: char) -> bool {
    is_ascii_alphabetic(c) || ('0' <= c && c <= '9')
}

/// A character allowed after the first one of a native denom.
pub open spec fn denom_tail_char(c: char) -> bool {
    is_ascii_alphanumeric(c) || c == '/' || c == ':' || c == '.' || c == '_' || c == '-'
}

/// The length of a string in bytes, as UTF-8.
pub open spec fn byte_len(s: Seq<char>) -> nat {
    encode_utf8(s).len()
}

/// The verdict on a native denom: between 3 and 128 bytes, a letter first,
/// then letters, digits and `/:._-`; the first offending character is reported.
pub open spec fn native_denom_verdict(d: Seq<char>) -> Option<DenomError> {
    if byte_len(d) < 3 || byte_len(d) > 128 {
        Some(DenomError::NativeDenomLength { len: byte_len(d) as usize })
    } else if !is_ascii_alphabetic(d[0]) {
        Some(DenomError::NonAlphabeticAscii)
    } else if exists|i: int| 1 <= i < d.len() && !denom_tail_char(#[trigger] d[i]) {
        let i = choose|i: int|
            1 <= i < d.len() && !denom_tail_char(#[trigger] d[i]) && forall|k: int|
                1 <= k < i ==> denom_tail_char(#[trigger] d[k]);
        Some(DenomError::InvalidCharacter { c: d[i] })
    } else {
        None
    }
}

/// Calls `cw_denom::validate_native_denom`, which follows the SDK rule
/// `[a-zA-Z][a-zA-Z0-9/:._-]{2,127}` (lengths in bytes) as
/// `native_denom_verdict` states.
#[verifier::external_body]
pub fn validate_native_denom(denom: String) -> (r: Result<CheckedDenom, DenomError>)
    ensures
        match native_denom_verdict(denom@) {
            Some(e) => r == Err::<CheckedDenom, DenomError>(e),
            None => r matches Ok(CheckedDenom::Native(d)) && d@ == denom@,
        },
{
    match cw_denom::validate_native_denom(denom) {
        Ok(cw_denom::CheckedDenom::Native(d)) => Ok(CheckedDenom::Native(d)),
        Ok(cw_denom::CheckedDenom::Cw20(a)) => Ok(CheckedDenom::Cw20(a.into_string())),
        Err(cw_denom::DenomError::Std(e)) => Err(DenomError::Std(e)),
        Err(cw_denom::DenomError::InvalidCw20 { err }) => Err(DenomError::InvalidCw20 { err }),
        Err(cw_denom::DenomError::NativeDenomLength { len }) => Err(DenomError::NativeDenomLength { len }),
        Err(cw_denom::DenomError::NonAlphabeticAscii) => Err(DenomError::NonAlphabeticAscii),
        Err(cw_denom::DenomError::InvalidCharacter { c }) => Err(DenomError::InvalidCharacter { c }),
    }
}

/// Vesting parameters as a user gives them.
#[derive(Clone, Debug, PartialEq, Eq)]
pub struct UncheckedVestingParams {
    pub recipient: String,
    pub amount: u128,
    pub denom: UncheckedDenom,
    pub vesting_schedule: VestingCurve,
    pub title: Option<String>,
    pub description: Option<String>,
}

/// Vesting parameters once checked.
#[derive(Clone, Debug, PartialEq)]
pub struct CheckedVestingParams {
    pub recipient: String,
    pub amount: u128,
    pub denom: CheckedDenom,
    pub vesting_schedule: VestingCurve,
    pub title: Option<String>,
    pub description: Option<String>,
}

/// The schedule starts at `amount` unvested and ends with nothing unvested.
pub open spec fn schedule_spans(c: CurveModel, amount: u128) -> bool {
    has_range(c) && range_spec(c, (0, amount))
}

/// The verdict on a schedule: it must never rise, and range from the
/// amount down to zero.
pub open spec fn schedule_verdict(c: CurveModel, amount: u128) -> Result<(), ContractError> {
    match decreasing_check(c) {
        Err(e) => Err(ContractError::Curve(e)),
        Ok(()) => if schedule_spans(c, amount) {
            Ok(())
        } else if exists|hi: u128| #[trigger] range_spec(c, (0, hi)) {
            Err(ContractError::VestsDifferently)
        } else {
            Err(ContractError::NeverFullyVested)
        },
    }
}

/// A title is accepted when absent, or between 1 and 280 characters.
pub open spec fn title_ok(title: Option<String>) -> bool {
    match title {
        Some(t) => t@.len() > 0 && t@.len() <= MAX_TITLE_CHARS,
        None => true,
    }
}

/// The outcome of checking the denomination: a native denom is checked here,
/// a cw20 denom by the chain, whose outcome is `cw20_denom` (the address
/// validated and answering a token-info query).
pub open spec fn denom_verdict(
    denom: UncheckedDenom,
    cw20_denom: Option<Result<String, DenomError>>,
) -> Result<Seq<char>, DenomError> {
    match denom {
        UncheckedDenom::Native(d) => match native_denom_verdict(d@) {
            Some(e) => Err(e),
            None => Ok(d@),
        },
        UncheckedDenom::Cw20(_) => match cw20_denom {
            Some(Ok(a)) => Ok(a@),
            Some(Err(e)) => Err(e),
            None => Ok(Seq::empty()),
        },
    }
}

impl UncheckedVestingParams {
    /// Asserts that the vesting schedule decreases to 0 eventually and is
    /// never more than the amount being sent.
    pub fn assert_schedule_vests_amount(&self) -> (r: Result<(), ContractError>)
        ensures
            r == schedule_verdict(self.vesting_schedule@, self.amount),
    {
        match self.vesting_schedule.validate_monotonic_decreasing() {
            Err(e) => return Err(ContractError::Curve(e)),
            Ok(()) => {},
        }
        let (low, high) = self.vesting_schedule.range();
        if low == 0 && high == self.amount {
            Ok(())
        } else if low != 0 {
            proof {
                assert forall|hi: u128| !#[trigger] range_spec(self.vesting_schedule@, (0, hi)) by {
                    if range_spec(self.vesting_schedule@, (0, hi)) {
                        range_unique(self.vesting_schedule@, (low, high), (0, hi));
                    }
                }
            }
            Err(ContractError::NeverFullyVested)
        } else {
            proof {
                assert(range_spec(self.vesting_schedule@, (0, high)));
                assert(!schedule_spans(self.vesting_schedule@, self.amount)) by {
                    if schedule_spans(self.vesting_schedule@, self.amount) {
                        range_unique(self.vesting_schedule@, (low, high), (0, self.amount));
                    }
                }
            }
            Err(ContractError::VestsDifferently)
        }
    }

    /// Checks the parameters: a non-zero amount, a schedule that vests
    /// exactly the amount, a valid recipient (`recipient` is the chain's
    /// verdict on the address), a valid denom, and a title of 1 to 280 characters.
    pub fn into_checked(
        self,
        recipient: Result<String, cosmwasm_std::StdError>,
        cw20_denom: Option<Result<String, DenomError>>,
    ) -> (r: Result<CheckedVestingParams, ContractError>)
        requires
            self.denom is Cw20 ==> cw20_denom is Some,
        ensures
            self.amount == 0 ==> r == Err::<CheckedVestingParams, ContractError>(
                ContractError::NothingToVest,
            ),
            self.amount != 0 && schedule_verdict(self.vesting_schedule@, self.amount) is Err ==> r
                == Err::<CheckedVestingParams, ContractError>(
                schedule_verdict(self.vesting_schedule@, self.amount)->Err_0,
            ),
            self.amount != 0 && schedule_verdict(self.vesting_schedule@, self.amount) is Ok
                && recipient is Err ==> r == Err::<CheckedVestingParams, ContractError>(
                ContractError::Std(recipient->Err_0),
            ),
            self.amount != 0 && schedule_verdict(self.vesting_schedule@, self.amount) is Ok
                && recipient is Ok && denom_verdict(self.denom, cw20_denom) is Err ==> r == Err::<
                CheckedVestingParams,
                ContractError,
            >(ContractError::Denom(denom_verdict(self.denom, cw20_denom)->Err_0)),
            self.amount != 0 && schedule_verdict(self.vesting_schedule@, self.amount) is Ok
                && recipient is Ok && denom_verdict(self.denom, cw20_denom) is Ok && !title_ok(
                self.title,
            ) ==> r == Err::<CheckedVestingParams, ContractError>(ContractError::InvalidTitle),
            self.amount != 0 && schedule_verdict(self.vesting_schedule@, self.amount) is Ok
                && recipient is Ok && denom_verdict(self.denom, cw20_denom) is Ok && (
            self.title matches Some(t) ==> 1 <= t@.len() <= 280) ==> r is Ok,
            r is Ok <==> (self.amount != 0 && schedule_verdict(self.vesting_schedule@, self.amount) is Ok
                && recipient is Ok && denom_verdict(self.denom, cw20_denom) is Ok && title_ok(
                self.title,
            )),
            r matches Ok(p) ==> {
                &&& p.recipient@ == recipient->Ok_0@
                &&& p.amount == self.amount
                &&& (p.denom is Native <==> self.denom is Native)
                &&& denom_text(p.denom)@ == denom_verdict(self.denom, cw20_denom)->Ok_0
                &&& p.vesting_schedule == self.vesting_schedule
                &&& p.title == self.title
                &&& p.description == self.description
                &&& schedule_spans(p.vesting_schedule@, p.amount)
            },
    {
        if self.amount == 0 {
            return Err(ContractError::NothingToVest);
        }
        match self.assert_schedule_vests_amount() {
            Err(e) => return Err(e),
            Ok(()) => {},
        }
        let recipient = match recipient {
            Err(e) => return Err(ContractError::Std(e)),
            Ok(a) => a,
        };
        let denom = match self.denom {
            UncheckedDenom::Native(d) => match validate_native_denom(d) {
                Err(e) => return Err(ContractError::Denom(e)),
                Ok(c) => c,
            },
            UncheckedDenom::Cw20(_) => match cw20_denom {
                Some(Ok(a)) => CheckedDenom::Cw20(a),
                Some(Err(e)) => return Err(ContractError::Denom(e)),
                None => CheckedDenom::Cw20(String::new()),
            },
        };
        match &self.title {
            Some(title) => {
                if title.as_str().unicode_len() > MAX_TITLE_CHARS || title.as_str().is_empty() {
                    return Err(ContractError::InvalidTitle);
                }
            },
            None => {},
        }
        Ok(
            CheckedVestingParams {
                recipient,
                amount: self.amount,
                denom,
                vesting_schedule: self.vesting_schedule,
                title: self.title,
                description: self.description,
            },
        )
    }
}

/// The text of a checked denomination: the native denom or the cw20 address.
pub open spec fn denom_text(d: CheckedDenom) -> String {
    match d {
        CheckedDenom::Native(s) => s,
        CheckedDenom::Cw20(s) => s,
    }
}

/// The range of a curve is determined by its points.
pub proof fn range_unique(c: CurveModel, a: (u128, u128), b: (u128, u128))
    requires
        range_spec(c, a),
        range_spec(c, b),
    ensures
        a == b,
{
    match c {
        CurveModel::PiecewiseLinear { steps } => {
            let i = choose|i: int| 0 <= i < steps.len() && #[trigger] steps[i].1 == a.0;
            let j = choose|i: int| 0 <= i < steps.len() && #[trigger] steps[i].1 == b.0;
            let k = choose|i: int| 0 <= i < steps.len() && #[trigger] steps[i].1 == a.1;
            let l = choose|i: int| 0 <= i < steps.len() && #[trigger] steps[i].1 == b.1;
            assert(steps[i].1 == a.0 && steps[j].1 == b.0 && steps[k].1 == a.1 && steps[l].1 == b.1);
        },
        _ => {},
    }
}

/// Where a vesting payment stands.
#[derive(Clone, Copy, Debug, PartialEq, Eq, Structural)]
pub enum VestingPaymentStatus {
    Active,
    Canceled,
    CanceledAndUnbonding,
    FullyVested,
    Unfunded,
}

/// A vesting payment.
#[derive(Clone, Debug, PartialEq)]
pub struct VestingPayment {
    /// The recipient for the vesting payment
    pub recipient: String,
    /// Vesting amount in native and cw20 tokens
    pub amount: u128,
    /// Amount claimed so far
    pub claimed_amount: u128,
    /// Canceled at time in seconds, only set if the contract is canceled
    pub canceled_at_time: Option<u64>,
    /// How much is still unvested at each time
    pub vesting_schedule: VestingCurve,
    /// The denom of a token (cw20 or native)
    pub denom: CheckedDenom,
    /// Title of the payroll item
    pub title: Option<String>,
    /// Description of the payroll item
    pub description: Option<String>,
    /// The status of the vesting payment
    pub status: VestingPaymentStatus,
    /// The amount of the vesting payment that has been staked
    pub staked_amount: u128,
}

impl VestingPayment {
    /// A new, active payment: nothing claimed, staked or canceled yet.
    pub fn new(checked_vesting_params: CheckedVestingParams) -> (r: Result<Self, ContractError>)
        ensures
            r matches Ok(v) && v.status == VestingPaymentStatus::Active && v.claimed_amount == 0
                && v.staked_amount == 0 && v.canceled_at_time is None && v.recipient
                == checked_vesting_params.recipient && v.amount == checked_vesting_params.amount
                && v.denom == checked_vesting_params.denom && v.vesting_schedule
                == checked_vesting_params.vesting_schedule && v.title
                == checked_vesting_params.title && v.description
                == checked_vesting_params.description,
    {
        Ok(
            VestingPayment {
                status: VestingPaymentStatus::Active,
                claimed_amount: 0,
                staked_amount: 0,
                canceled_at_time: None,
                recipient: checked_vesting_params.recipient,
                amount: checked_vesting_params.amount,
                denom: checked_vesting_params.denom,
                vesting_schedule: checked_vesting_params.vesting_schedule,
                title: checked_vesting_params.title,
                description: checked_vesting_params.description,
            },
        )
    }

    /// How much has vested, given how much the schedule still holds back:
    /// the amount minus the unvested part, or the overflow error when the
    /// schedule holds back more than the amount.
    pub fn vested_given_unvested(&self, unvested: u128) -> (r: Result<u128, cosmwasm_std::OverflowError>)
        ensures
            match r {
                Ok(v) => unvested <= self.amount && v == self.amount - unvested,
                Err(e) => unvested > self.amount && e == overflow_error_of(
                    OverflowOperation::Sub,
                    self.amount,
                    unvested,
                ),
            },
    {
        checked_sub_u128(self.amount, unvested)
    }

    /// How much has vested at time `time` (seconds).  A payment whose
    /// schedule spans its amount never fails.
    pub fn get_vested_amount_by_seconds(&self, time: u64) -> (r: Result<u128, cosmwasm_std::OverflowError>)
        requires
            evaluates_at(self.vesting_schedule@, time),
        ensures
            match r {
                Ok(v) => curve_value(self.vesting_schedule@, time) <= self.amount && v == self.amount
                    - curve_value(self.vesting_schedule@, time),
                Err(e) => curve_value(self.vesting_schedule@, time) > self.amount && e
                    == overflow_error_of(
                    OverflowOperation::Sub,
                    self.amount,
                    curve_value(self.vesting_schedule@, time) as u128,
                ),
            },
            schedule_spans(self.vesting_schedule@, self.amount) ==> r is Ok,
    {
        let vesting_funds = self.vesting_schedule.value(time);
        proof {
            if schedule_spans(self.vesting_schedule@, self.amount) {
                lemma_value_in_range(self.vesting_schedule@, time, 0, self.amount);
            }
        }
        self.vested_given_unvested(vesting_funds)
    }
}

/// Law: what has vested never decreases over time, for a payment whose
/// schedule passes the checks of `assert_schedule_vests_amount`: at a later
/// time at least as much has vested, and never more than the amount.
pub proof fn lemma_vested_never_decreases(schedule: CurveModel, amount: u128, t1: u64, t2: u64)
    requires
        schedule_verdict(schedule, amount) is Ok,
        evaluates_at(schedule, t1),
        evaluates_at(schedule, t2),
        t1 <= t2,
    ensures
        0 <= amount - curve_value(schedule, t1) <= amount - curve_value(schedule, t2) <= amount,
{
    lemma_value_nonincreasing(schedule, t1, t2);
    lemma_value_in_range(schedule, t1, 0, amount);
    lemma_value_in_range(schedule, t2, 0, amount);
}

/// Law: a title is accepted exactly when it is absent or has 1 to 280
/// characters, whatever characters it holds.
pub proof fn lemma_title_length_decides(title: Option<String>)
    ensures
        title_ok(title) <==> match title {
            None => true,
            Some(t) => 1 <= t@.len() <= 280,
        },
{
}

/// Law: a schedule that falls linearly from the whole amount to nothing is
/// accepted for that amount.
pub proof fn lemma_linear_schedule_accepted(min_x: u64, max_x: u64, amount: u128)
    requires
        min_x < max_x,
    ensures
        schedule_verdict(
            CurveModel::SaturatingLinear { min_x, min_y: amount, max_x, max_y: 0 },
            amount,
        ) is Ok,
{
}

/// Law: a piecewise schedule whose steps come one after the other in time
/// (after time 0), never rise, start at the whole amount and end at nothing
/// is accepted for that amount; flat stretches such as a cliff are allowed.
pub proof fn lemma_falling_steps_accepted(steps: Seq<(u64, u128)>, amount: u128)
    requires
        steps.len() > 0,
        steps[0].0 > 0,
        forall|i: int| 0 < i < steps.len() ==> #[trigger] steps[i].0 > steps[i - 1].0,
        forall|i: int| 0 < i < steps.len() ==> #[trigger] steps[i].1 <= steps[i - 1].1,
        steps[0].1 == amount,
        steps[steps.len() - 1].1 == 0,
    ensures
        schedule_verdict(CurveModel::PiecewiseLinear { steps }, amount) is Ok,
{
    lemma_falling_steps_pass(steps);
    assert(!steps_rise(steps));
    assert forall|i: int| 0 <= i < steps.len() implies 0 <= #[trigger] steps[i].1 <= amount by {
        lemma_steps_fall(steps, 0, i);
    }
    assert(steps[0].1 == amount);
    assert(steps[steps.len() - 1].1 == 0);
    assert(range_spec(CurveModel::PiecewiseLinear { steps }, (0, amount)));
}

} // verus!
