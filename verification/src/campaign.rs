//! A fund-raising campaign: it has a goal and an expiration.  While it has
//! not expired anyone may deposit the goal's coin and gets (or tops up) a
//! receipt; the deposits stay escrowed.  Once it has expired, a reached goal
//! lets the recipient claim the funds and donors receive the campaign's
//! token, while a missed goal refunds each donor what their receipt holds.
use vstd::prelude::*;
use vstd::string::to_string_from_display_ensures;

use crate::common::{
    attr, attr_is, checked_add_u128, is_expired, must_pay, must_pay_spec, overflow_error_of,
    parse_reply_instantiate_data, reply_address, reply_decodes, seconds_to_nanos,
    std_error_from_overflow, std_error_overflow, BlockInfo, Coin, Expiration, MessageInfo,
    OverflowOperation, Reply, Response, NANOS_PER_SECOND,
};
use crate::factory::CodeIds;
use crate::receipt::{total_paid, Payment};
use crate::vesting::{schedule_verdict, UncheckedDenom, UncheckedVestingParams};
use crate::curve::{CurveModel, VestingCurve};

verus! {

/// Reply id of the instantiation of the receipt contract.
pub const INSTANTIATE_RECEIPT_REPLY_ID: u64 = 1;

/// Reply id of the instantiation of the campaign's token.
pub const INSTANTIATE_TOKEN_REPLY_ID: u64 = 2;

/// How many of the campaign's tokens a donor receives once the goal is reached.
pub const DONOR_TOKEN_AMOUNT: u128 = 1_000_000;

/// How long, in seconds, a vesting started by the campaign takes to vest
/// fully.  The campaign's own choice, as is the shape of that vesting: a
/// straight line from the whole amount down to nothing.
pub const VESTING_PERIOD_SECONDS: u64 = 150;

/// The campaign's configuration.  `expiration` is in seconds.
#[derive(Clone, Debug, PartialEq, Eq)]
pub struct Config {
    pub name: String,
    pub expiration: u64,
    pub goal: Coin,
    pub recipient: String,
    pub payroll_factory_code_id: u64,
    pub vesting_code_id: u64,
    pub receipt_contract: String,
    pub factory_contract: String,
    pub token_contract: String,
    pub payroll_factory_contract: String,
}

/// What the campaign counts as collected.
#[derive(Clone, Debug, PartialEq, Eq)]
pub struct Collected {
    pub coin: Coin,
}

/// Instantiation of a campaign; `expiration` is a timestamp in seconds.
#[derive(Clone, Debug, PartialEq, Eq)]
pub struct InstantiateMsg {
    pub name: String,
    pub expiration: u64,
    pub goal: Coin,
    pub recipient: String,
}

/// What a campaign executes.
#[derive(Clone, Copy, Debug, PartialEq, Eq, Structural)]
pub enum ExecuteMsg {
    Deposit,
    Redeem,
}

/// What a campaign answers.
#[derive(Clone, Copy, Debug, PartialEq, Eq, Structural)]
pub enum QueryMsg {
    GetConfig,
    GetCollected,
}

/// The answer to a query.
#[derive(Clone, Debug, PartialEq, Eq)]
pub enum QueryResponse {
    Config(Config),
    Collected(Collected),
}

#[derive(Clone, Copy, Debug, PartialEq, Eq, Structural)]
pub struct MigrateMsg {}

/// Why a campaign operation was refused.
#[derive(Debug, PartialEq)]
pub enum ContractError {
    Std(cosmwasm_std::StdError),
    Unauthorized,
    UnknownReplyID,
    EmptyGoal,
    UnsupportedCoin,
    InvalidBalance,
    NotEnoughFunds,
    ExpirationInPast { provided: String },
    Expired,
    NothingToRedeem,
    CustomError { val: String },
}

/// A message the campaign sends.
#[derive(Clone, Debug, PartialEq, Eq)]
pub enum CampaignMsg {
    /// Instantiate the receipt NFT contract (a cw721 with `minter`), replying with `reply_id`.
    InstantiateReceipt {
        admin: String,
        code_id: u64,
        name: String,
        symbol: String,
        minter: String,
        label: String,
        reply_id: u64,
    },
    /// Instantiate the campaign's cw20 token, mintable by `minter` without cap, replying with `reply_id`.
    InstantiateToken {
        admin: String,
        code_id: u64,
        name: String,
        symbol: String,
        decimals: u8,
        minter: String,
        label: String,
        reply_id: u64,
    },
    /// Mint the receipt `token_id` to `owner`, holding the one payment.
    MintReceipt { contract: String, token_id: String, owner: String, payment: Payment },
    /// Append a payment of `amount` to the receipt `token_id`.
    TopUpReceipt { contract: String, token_id: String, amount: u128 },
    /// Mint `amount` of the campaign's token (the cw20 at `contract`) to `recipient`.
    MintToken { contract: String, recipient: String, amount: u128 },
    /// Send `amount` of the native `denom` to `to_address`.
    BankSend { to_address: String, denom: String, amount: u128 },
    /// Ask the payroll factory to start a vesting of native funds with `params`.
    StartNativeVesting { payroll_factory: String, params: UncheckedVestingParams, label: String },
    /// Send `amount` of the cw20 `token` to the payroll factory, asking it to
    /// start a vesting of them with `params`.
    StartCw20Vesting {
        token: String,
        payroll_factory: String,
        amount: u128,
        params: UncheckedVestingParams,
        label: String,
    },
}

pub type CampaignResponse = Response<CampaignMsg>;

/// The expiration of a campaign that ends at `seconds`.
pub open spec fn expiration_at(seconds: u64) -> Expiration {
    Expiration::AtTime((seconds * NANOS_PER_SECOND) as u64)
}

/// The campaign has ended in `block`.
pub open spec fn campaign_over(seconds: u64, block: BlockInfo) -> bool {
    expiration_at(seconds).spec_is_expired(block)
}

/// An end time in seconds that can be held in nanoseconds.
pub open spec fn representable(seconds: u64) -> bool {
    seconds * NANOS_PER_SECOND <= u64::MAX
}

/// Whether the campaign has ended in `block`.
fn has_ended(seconds: u64, block: &BlockInfo) -> (r: bool)
    requires
        representable(seconds),
    ensures
        r == campaign_over(seconds, *block),
{
    let e = Expiration::AtTime(seconds_to_nanos(seconds));
    is_expired(&e, block)
}

/// The configuration and collected amount of a new campaign.  The campaign
/// must not already be over, its goal must not be zero, and `recipient` is
/// the chain's verdict on the recipient's address.  Nothing is collected at
/// launch: the collected amount starts at zero, in the goal's denom.
pub fn instantiate(
    block: &BlockInfo,
    sender: String,
    msg: InstantiateMsg,
    recipient: Result<String, cosmwasm_std::StdError>,
) -> (r: Result<(Config, Collected), ContractError>)
    requires
        representable(msg.expiration),
    ensures
        campaign_over(msg.expiration, *block) ==> (r matches Err(ContractError::ExpirationInPast {
            provided,
        }) && to_string_from_display_ensures::<u64>(&msg.expiration, provided)),
        !campaign_over(msg.expiration, *block) && msg.goal.amount == 0 ==> r == Err::<
            (Config, Collected),
            ContractError,
        >(ContractError::EmptyGoal),
        !campaign_over(msg.expiration, *block) && msg.goal.amount != 0 && recipient is Err ==> r
            == Err::<(Config, Collected), ContractError>(ContractError::Std(recipient->Err_0)),
        r is Ok <==> (!campaign_over(msg.expiration, *block) && msg.goal.amount != 0
            && recipient is Ok),
        r matches Ok((config, collected)) ==> {
            &&& config == (Config {
                name: msg.name,
                expiration: msg.expiration,
                goal: msg.goal,
                recipient: recipient->Ok_0,
                payroll_factory_code_id: 0,
                vesting_code_id: 0,
                receipt_contract: config.receipt_contract,
                factory_contract: sender,
                token_contract: config.token_contract,
                payroll_factory_contract: config.payroll_factory_contract,
            })
            &&& config.receipt_contract@.len() == 0
            &&& config.token_contract@.len() == 0
            &&& config.payroll_factory_contract@.len() == 0
            &&& collected.coin.denom == msg.goal.denom
            &&& collected.coin.amount == 0
        },
{
    if has_ended(msg.expiration, block) {
        return Err(ContractError::ExpirationInPast { provided: msg.expiration.to_string() });
    }
    if msg.goal.amount == 0 {
        return Err(ContractError::EmptyGoal);
    }
    let recipient = match recipient {
        Err(e) => return Err(ContractError::Std(e)),
        Ok(a) => a,
    };
    let collected = Collected { coin: Coin { denom: msg.goal.denom.clone(), amount: 0 } };
    let config = Config {
        name: msg.name,
        expiration: msg.expiration,
        goal: msg.goal,
        recipient,
        payroll_factory_code_id: 0,
        vesting_code_id: 0,
        receipt_contract: String::new(),
        factory_contract: sender,
        token_contract: String::new(),
        payroll_factory_contract: String::new(),
    };
    Ok((config, collected))
}

/// The response to a campaign's instantiation: its attributes, then the
/// instantiation of the receipt contract and of the campaign's token, both
/// administered and minted by the campaign (`contract_address`), with the
/// code ids the factory holds.
pub fn instantiate_response(
    config: &Config,
    contract_address: &String,
    code_ids: &CodeIds,
) -> (r: CampaignResponse)
    ensures
        r.attributes@.len() == 5,
        attr_is(r.attributes@[0], "method"@, "instantiate"@),
        attr_is(r.attributes@[1], "creator"@, config.factory_contract@),
        attr_is(r.attributes@[2], "campaign_name"@, config.name@),
        r.attributes@[3].key@ == "campaign_goal"@,
        exists|amount_text: String|
            to_string_from_display_ensures::<u128>(&config.goal.amount, amount_text)
                && r.attributes@[3].value@ == amount_text@ + config.goal.denom@,
        r.attributes@[4].key@ == "expiration"@,
        exists|text: String|
            to_string_from_display_ensures::<u64>(&config.expiration, text) && text@
                == r.attributes@[4].value@,
        r.messages@.len() == 2,
        r.messages@[0] matches CampaignMsg::InstantiateReceipt {
            admin,
            code_id,
            name,
            symbol,
            minter,
            label,
            reply_id,
        } && admin == *contract_address && code_id == code_ids.receipt && name == config.name
            && symbol@ == "campaign_receipt"@ && minter == *contract_address && label@
            == "campaign receipt"@ && reply_id == INSTANTIATE_RECEIPT_REPLY_ID,
        r.messages@[1] matches CampaignMsg::InstantiateToken {
            admin,
            code_id,
            name,
            symbol,
            decimals,
            minter,
            label,
            reply_id,
        } && admin == *contract_address && code_id == code_ids.cw20 && name == config.name
            && symbol@ == "PRJCT-SRC"@ && decimals == 6 && minter == *contract_address && label@
            == "campaign token"@ && reply_id == INSTANTIATE_TOKEN_REPLY_ID,
{
    let mut resp = Response::new();
    resp.attributes.push(attr("method", "instantiate".to_owned()));
    resp.attributes.push(attr("creator", config.factory_contract.clone()));
    resp.attributes.push(attr("campaign_name", config.name.clone()));
    resp.attributes.push(attr("campaign_goal", coin_text(&config.goal)));
    resp.attributes.push(attr("expiration", config.expiration.to_string()));
    resp.messages.push(
        CampaignMsg::InstantiateReceipt {
            admin: contract_address.clone(),
            code_id: code_ids.receipt,
            name: config.name.clone(),
            symbol: "campaign_receipt".to_owned(),
            minter: contract_address.clone(),
            label: "campaign receipt".to_owned(),
            reply_id: INSTANTIATE_RECEIPT_REPLY_ID,
        },
    );
    resp.messages.push(
        CampaignMsg::InstantiateToken {
            admin: contract_address.clone(),
            code_id: code_ids.cw20,
            name: config.name.clone(),
            symbol: "PRJCT-SRC".to_owned(),
            decimals: 6,
            minter: contract_address.clone(),
            label: "campaign token".to_owned(),
            reply_id: INSTANTIATE_TOKEN_REPLY_ID,
        },
    );
    resp
}

/// A coin as text: its amount followed by its denom.
pub fn coin_text(coin: &Coin) -> (r: String)
    ensures
        exists|amount_text: String|
            to_string_from_display_ensures::<u128>(&coin.amount, amount_text) && r@ == amount_text@
                + coin.denom@,
{
    let amount_text = coin.amount.to_string();
    let r = amount_text.clone().concat(coin.denom.as_str());
    r
}

/// Fails with `Expired` once the campaign is over.
pub fn check_if_expired(config: &Config, block: &BlockInfo) -> (r: Result<bool, ContractError>)
    requires
        representable(config.expiration),
    ensures
        campaign_over(config.expiration, *block) ==> r == Err::<bool, ContractError>(
            ContractError::Expired,
        ),
        !campaign_over(config.expiration, *block) ==> r == Ok::<bool, ContractError>(false),
{
    if has_ended(config.expiration, block) {
        return Err(ContractError::Expired);
    }
    Ok(false)
}

/// Whether the collected amount has reached the goal.
pub fn check_if_goal_reached(config: &Config, collected: &Collected) -> (r: bool)
    ensures
        r == (collected.coin.amount >= config.goal.amount),
{
    collected.coin.amount >= config.goal.amount
}

/// The block time in nanoseconds, cut down to whole seconds.
pub open spec fn whole_seconds(time: u64) -> u64 {
    ((time / NANOS_PER_SECOND) * NANOS_PER_SECOND) as u64
}

/// A deposit into the campaign.  Exactly one coin of the goal's denom must
/// be attached (`requires`); the campaign must not be over.  A sender
/// without a receipt (`holds_receipt`) gets one minted holding this
/// payment; a sender with one has it topped up.  The deposit is added to
/// the collected amount, which must not overflow.
pub fn execute_deposit(
    config: &Config,
    collected: &Collected,
    block: &BlockInfo,
    info: &MessageInfo,
    holds_receipt: bool,
) -> (r: Result<(Collected, CampaignResponse), ContractError>)
    requires
        representable(config.expiration),
        must_pay_spec(info.funds@, config.goal.denom@) is Some,
    ensures
        campaign_over(config.expiration, *block) ==> r == Err::<
            (Collected, CampaignResponse),
            ContractError,
        >(ContractError::Expired),
        ({
            let deposited = must_pay_spec(info.funds@, config.goal.denom@)->Some_0;
            &&& !campaign_over(config.expiration, *block) && collected.coin.amount + deposited
                > u128::MAX ==> r == Err::<(Collected, CampaignResponse), ContractError>(
                ContractError::Std(
                    std_error_from_overflow(
                        overflow_error_of(OverflowOperation::Add, collected.coin.amount, deposited),
                    ),
                ),
            )
            &&& r is Ok <==> !campaign_over(config.expiration, *block) && collected.coin.amount
                + deposited <= u128::MAX
            &&& r matches Ok((c, resp)) ==> {
                &&& c.coin.denom == collected.coin.denom
                &&& c.coin.amount == collected.coin.amount + deposited
                &&& resp.attributes@.len() == 2
                &&& attr_is(resp.attributes@[0], "execute"@, "deposit"@)
                &&& attr_is(
                    resp.attributes@[1],
                    "action"@,
                    if holds_receipt {
                        "top-up"@
                    } else {
                        "donating"@
                    },
                )
                &&& resp.messages@.len() == 1
                &&& resp.messages@[0] == if holds_receipt {
                    CampaignMsg::TopUpReceipt {
                        contract: config.receipt_contract,
                        token_id: info.sender,
                        amount: deposited,
                    }
                } else {
                    CampaignMsg::MintReceipt {
                        contract: config.receipt_contract,
                        token_id: info.sender,
                        owner: info.sender,
                        payment: Payment { amount: deposited, date: whole_seconds(block.time) },
                    }
                }
            }
        }),
{
    let deposited = match must_pay(info, &config.goal.denom) {
        Some(a) => a,
        None => {
            proof {
                assert(false);
            }
            0
        },
    };
    check_if_expired(config, block)?;
    let mut resp = Response::new();
    resp.attributes.push(attr("execute", "deposit".to_owned()));
    if !holds_receipt {
        let date = (block.time / NANOS_PER_SECOND) * NANOS_PER_SECOND;
        resp.messages.push(
            CampaignMsg::MintReceipt {
                contract: config.receipt_contract.clone(),
                token_id: info.sender.clone(),
                owner: info.sender.clone(),
                payment: Payment { amount: deposited, date },
            },
        );
        resp.attributes.push(attr("action", "donating".to_owned()));
    } else {
        resp.messages.push(
            CampaignMsg::TopUpReceipt {
                contract: config.receipt_contract.clone(),
                token_id: info.sender.clone(),
                amount: deposited,
            },
        );
        resp.attributes.push(attr("action", "top-up".to_owned()));
    }
    let total = match checked_add_u128(collected.coin.amount, deposited) {
        Err(e) => return Err(ContractError::Std(std_error_overflow(e))),
        Ok(total) => total,
    };
    Ok((Collected { coin: Coin { denom: collected.coin.denom.clone(), amount: total } }, resp))
}

/// Where a redemption stands after its first checks.
#[derive(Clone, Debug, PartialEq, Eq)]
pub enum RedeemStep {
    /// The redemption is over, with this response; `redeemed` is the record
    /// of redeemed senders to store, now holding this sender.
    Done { response: CampaignResponse, redeemed: Vec<String> },
    /// The goal was not reached: the donor is to be refunded what their
    /// receipt `token_id` records, in `denom`, if the campaign holds enough.
    Refund { denom: String, token_id: String },
}

/// `sender` has already redeemed: the record of redeemed senders holds them.
pub open spec fn has_redeemed(redeemed: Seq<String>, sender: Seq<char>) -> bool {
    exists|i: int| 0 <= i < redeemed.len() && #[trigger] redeemed[i]@ == sender
}

/// Whether `sender` is in the record of redeemed senders.
pub fn redeemed_already(redeemed: &Vec<String>, sender: &String) -> (r: bool)
    ensures
        r == has_redeemed(redeemed@, sender@),
{
    let mut i: usize = 0;
    while i < redeemed.len()
        invariant
            i <= redeemed@.len(),
            forall|k: int| 0 <= k < i ==> #[trigger] redeemed@[k]@ != sender@,
        decreases redeemed@.len() - i,
    {
        if redeemed[i] == *sender {
            return true;
        }
        i = i + 1;
    }
    false
}

/// The text of the error given to a redemption before the campaign is over.
/// The campaign's own choice: its error type has no variant for it.
pub open spec fn still_running_text() -> Seq<char> {
    "Campaign is still running"@
}

/// A redemption by `sender` once the campaign is over; the deposits stay
/// escrowed until then.  Each sender redeems once: `redeemed` records the
/// senders whose redemption succeeded, a sender it holds is refused, and a
/// finished redemption hands back the record with the sender added.  When
/// the goal is reached the
/// recipient is sent the collected funds, and a donor (who must hold a
/// receipt, `holds_receipt`) is minted the campaign's token when it has one.
/// When the goal was missed, a donor's refund is to be checked against the
/// campaign's balance (`redeem_refund`).
pub fn execute_redeem(
    config: &Config,
    collected: &Collected,
    block: &BlockInfo,
    sender: String,
    holds_receipt: bool,
    redeemed: Vec<String>,
) -> (r: Result<RedeemStep, ContractError>)
    requires
        representable(config.expiration),
    ensures
        !campaign_over(config.expiration, *block) ==> (r matches Err(ContractError::CustomError {
            val,
        }) && val@ == still_running_text()),
        campaign_over(config.expiration, *block) && has_redeemed(redeemed@, sender@) ==> r == Err::<
            RedeemStep,
            ContractError,
        >(ContractError::NothingToRedeem),
        ({
            let reached = collected.coin.amount >= config.goal.amount;
            let over = campaign_over(config.expiration, *block) && !has_redeemed(redeemed@, sender@);
            &&& over && reached && sender@ == config.recipient@ ==> (r matches Ok(
                RedeemStep::Done { response: resp, redeemed: after },
            ) && after@ == redeemed@.push(sender) && resp.attributes@.len() == 0 && resp.messages@ == seq![
                CampaignMsg::BankSend {
                    to_address: sender,
                    denom: config.goal.denom,
                    amount: collected.coin.amount,
                },
            ])
            &&& over && !(reached && sender@ == config.recipient@) && !holds_receipt ==> r
                == Err::<RedeemStep, ContractError>(ContractError::NothingToRedeem)
            &&& over && reached && sender@ != config.recipient@ && holds_receipt ==> (r matches Ok(
                RedeemStep::Done { response: resp, redeemed: after },
            ) && after@ == redeemed@.push(sender) && resp.attributes@.len() == 0 && resp.messages@ == if config.token_contract@.len()
                == 0 {
                Seq::<CampaignMsg>::empty()
            } else {
                seq![
                    CampaignMsg::MintToken {
                        contract: config.token_contract,
                        recipient: sender,
                        amount: DONOR_TOKEN_AMOUNT,
                    },
                ]
            })
            &&& over && !reached && holds_receipt ==> r == Ok::<RedeemStep, ContractError>(
                RedeemStep::Refund { denom: config.goal.denom, token_id: sender },
            )
        }),
        campaign_over(config.expiration, *block) && collected.coin.amount < config.goal.amount
            && holds_receipt && (forall|i: int| 0 <= i < redeemed@.len() ==> redeemed@[i]@ != sender@)
            ==> r == Ok::<RedeemStep, ContractError>(
            RedeemStep::Refund { denom: config.goal.denom, token_id: sender },
        ),
{
    if !has_ended(config.expiration, block) {
        return Err(ContractError::CustomError { val: "Campaign is still running".to_owned() });
    }
    if redeemed_already(&redeemed, &sender) {
        return Err(ContractError::NothingToRedeem);
    }
    let mut redeemed = redeemed;
    let reached = check_if_goal_reached(config, collected);
    if reached && sender == config.recipient {
        let mut resp = Response::new();
        resp.messages.push(
            CampaignMsg::BankSend {
                to_address: sender.clone(),
                denom: config.goal.denom.clone(),
                amount: collected.coin.amount,
            },
        );
        redeemed.push(sender);
        return Ok(RedeemStep::Done { response: resp, redeemed });
    }
    if !holds_receipt {
        return Err(ContractError::NothingToRedeem);
    }
    if reached {
        let mut resp = Response::new();
        if !config.token_contract.as_str().is_empty() {
            resp.messages.push(
                CampaignMsg::MintToken {
                    contract: config.token_contract.clone(),
                    recipient: sender.clone(),
                    amount: DONOR_TOKEN_AMOUNT,
                },
            );
        }
        redeemed.push(sender);
        Ok(RedeemStep::Done { response: resp, redeemed })
    } else {
        Ok(RedeemStep::Refund { denom: config.goal.denom.clone(), token_id: sender })
    }
}

/// Refunds `sender` the sum of the payments their receipt records, in
/// `denom`, when the campaign's balance covers it, and hands back the
/// record of redeemed senders (`redeemed`) with the sender added.
pub fn redeem_refund(
    denom: String,
    sender: String,
    contract_balance: u128,
    payments: &Vec<Payment>,
    redeemed: Vec<String>,
) -> (r: Result<(CampaignResponse, Vec<String>), ContractError>)
    requires
        total_paid(payments@) <= u128::MAX,
    ensures
        contract_balance < total_paid(payments@) ==> r == Err::<
            (CampaignResponse, Vec<String>),
            ContractError,
        >(ContractError::NotEnoughFunds),
        contract_balance >= total_paid(payments@) ==> (r matches Ok((resp, after)) && after@
            == redeemed@.push(sender) && resp.attributes@.len() == 0 && resp.messages@ == seq![
            CampaignMsg::BankSend {
                to_address: sender,
                denom,
                amount: total_paid(payments@) as u128,
            },
        ]),
{
    let mut total: u128 = 0;
    let mut i: usize = 0;
    while i < payments.len()
        invariant
            i <= payments@.len(),
            total == total_paid(payments@.take(i as int)),
            total_paid(payments@) <= u128::MAX,
        decreases payments@.len() - i,
    {
        proof {
            assert(payments@.take(i + 1).drop_last() =~= payments@.take(i as int));
            lemma_total_paid_prefix(payments@, i + 1);
        }
        total = total + payments[i].amount;
        i = i + 1;
    }
    proof {
        assert(payments@.take(payments@.len() as int) =~= payments@);
    }
    if contract_balance < total {
        return Err(ContractError::NotEnoughFunds);
    }
    let mut resp = Response::new();
    resp.messages.push(CampaignMsg::BankSend { to_address: sender.clone(), denom, amount: total });
    let mut redeemed = redeemed;
    redeemed.push(sender);
    Ok((resp, redeemed))
}

/// A prefix of the payments never totals more than all of them.
pub proof fn lemma_total_paid_prefix(payments: Seq<Payment>, n: int)
    requires
        0 <= n <= payments.len(),
    ensures
        total_paid(payments.take(n)) <= total_paid(payments),
    decreases payments.len() - n,
{
    if n < payments.len() {
        lemma_total_paid_prefix(payments, n + 1);
        assert(payments.take(n + 1).drop_last() =~= payments.take(n));
    } else {
        assert(payments.take(n) =~= payments);
    }
}

/// Stores the address of the receipt contract that was just instantiated.
pub fn handle_instantiate_receipt_reply(config: Config, contract_address: String) -> (r: (
    Config,
    CampaignResponse,
))
    ensures
        r.0 == (Config { receipt_contract: contract_address, ..config }),
        r.1.messages@.len() == 0,
        r.1.attributes@.len() == 2,
        attr_is(r.1.attributes@[0], "action"@, "instantiated by factory"@),
        attr_is(r.1.attributes@[1], "receipt_address"@, contract_address@),
{
    let mut config = config;
    config.receipt_contract = contract_address.clone();
    let mut resp = Response::new();
    resp.attributes.push(attr("action", "instantiated by factory".to_owned()));
    resp.attributes.push(attr("receipt_address", contract_address));
    (config, resp)
}

/// Stores the address of the token contract that was just instantiated.
/// Its attribute is keyed `receipt_address`, as for the receipt.
pub fn handle_instantiate_token_reply(config: Config, contract_address: String) -> (r: (
    Config,
    CampaignResponse,
))
    ensures
        r.0 == (Config { token_contract: contract_address, ..config }),
        r.1.messages@.len() == 0,
        r.1.attributes@.len() == 2,
        attr_is(r.1.attributes@[0], "action"@, "instantiated by factory"@),
        attr_is(r.1.attributes@[1], "receipt_address"@, contract_address@),
{
    let mut config = config;
    config.token_contract = contract_address.clone();
    let mut resp = Response::new();
    resp.attributes.push(attr("action", "instantiated by factory".to_owned()));
    resp.attributes.push(attr("receipt_address", contract_address));
    (config, resp)
}

/// A reply this campaign expects: the instantiation of its receipt or token.
pub open spec fn expected_reply(id: u64) -> bool {
    id == INSTANTIATE_RECEIPT_REPLY_ID || id == INSTANTIATE_TOKEN_REPLY_ID
}

/// The response to a reply whose contract was stored at `address`.
pub open spec fn stored_response(resp: CampaignResponse, address: Seq<char>) -> bool {
    &&& resp.messages@.len() == 0
    &&& resp.attributes@.len() == 2
    &&& attr_is(resp.attributes@[0], "action"@, "instantiated by factory"@)
    &&& attr_is(resp.attributes@[1], "receipt_address"@, address)
}

/// Handles the reply of the receipt's or the token's instantiation; any
/// other reply is refused.  `None` when an expected reply does not decode,
/// where the campaign gives up.
pub fn reply(config: Config, msg: Reply) -> (r: Option<
    Result<(Config, CampaignResponse), ContractError>,
>)
    ensures
        !expected_reply(msg.id) ==> r == Some(
            Err::<(Config, CampaignResponse), ContractError>(ContractError::UnknownReplyID),
        ),
        expected_reply(msg.id) ==> (r is None <==> !reply_decodes(msg.result)),
        msg.id == INSTANTIATE_RECEIPT_REPLY_ID && reply_decodes(msg.result) ==> (r matches Some(
            Ok((c, resp)),
        ) && c.receipt_contract@ == reply_address(msg.result) && c == (Config {
            receipt_contract: c.receipt_contract,
            ..config
        }) && stored_response(resp, reply_address(msg.result))),
        msg.id == INSTANTIATE_TOKEN_REPLY_ID && reply_decodes(msg.result) ==> (r matches Some(
            Ok((c, resp)),
        ) && c.token_contract@ == reply_address(msg.result) && c == (Config {
            token_contract: c.token_contract,
            ..config
        }) && stored_response(resp, reply_address(msg.result))),
{
    if !(msg.id == INSTANTIATE_RECEIPT_REPLY_ID || msg.id == INSTANTIATE_TOKEN_REPLY_ID) {
        return Some(Err(ContractError::UnknownReplyID));
    }
    let res = match parse_reply_instantiate_data(&msg) {
        Ok(res) => res,
        Err(_) => return None,
    };
    if msg.id == INSTANTIATE_RECEIPT_REPLY_ID {
        Some(Ok(handle_instantiate_receipt_reply(config, res.contract_address)))
    } else {
        Some(Ok(handle_instantiate_token_reply(config, res.contract_address)))
    }
}

/// Answers a query with the stored configuration or collected amount.
pub fn query(config: Config, collected: Collected, msg: QueryMsg) -> (r: QueryResponse)
    ensures
        r == (match msg {
            QueryMsg::GetConfig => QueryResponse::Config(config),
            QueryMsg::GetCollected => QueryResponse::Collected(collected),
        }),
{
    match msg {
        QueryMsg::GetConfig => QueryResponse::Config(config),
        QueryMsg::GetCollected => QueryResponse::Collected(collected),
    }
}

/// Funds that a vesting contract may be started with.
#[derive(Clone, Debug, PartialEq, Eq)]
pub enum Balance {
    Native(Vec<Coin>),
    Cw20 { address: String, amount: u128 },
}

/// The schedule of a vesting of `amount` started in `block`: nothing is
/// vested at the block's second, and everything `VESTING_PERIOD_SECONDS` later.
pub open spec fn vesting_schedule_for(block: BlockInfo, amount: u128) -> CurveModel {
    let start = block.time / NANOS_PER_SECOND;
    CurveModel::SaturatingLinear {
        min_x: start,
        min_y: amount,
        max_x: (start + VESTING_PERIOD_SECONDS) as u64,
        max_y: 0,
    }
}

/// The vesting parameters a campaign hands the payroll factory for
/// `balance`: the first native coin (or the cw20), to the sender, on a
/// schedule that vests all of it over `VESTING_PERIOD_SECONDS`, titled
/// "vesting".  The payroll factory accepts the schedule.
pub fn vesting_params_for(block: &BlockInfo, sender: &String, balance: &Balance) -> (r:
    UncheckedVestingParams)
    requires
        balance matches Balance::Native(coins) ==> coins@.len() > 0,
    ensures
        r.recipient == *sender,
        r.vesting_schedule@ == vesting_schedule_for(*block, r.amount),
        schedule_verdict(r.vesting_schedule@, r.amount) is Ok,
        r.description is None,
        r.title matches Some(t) && t@ == "vesting"@,
        match balance {
            Balance::Native(coins) => r.amount == coins@[0].amount && r.denom == UncheckedDenom::Native(
                coins@[0].denom,
            ),
            Balance::Cw20 { address, amount } => r.amount == *amount && r.denom
                == UncheckedDenom::Cw20(*address),
        },
{
    let (amount, denom) = match balance {
        Balance::Native(coins) => (coins[0].amount, UncheckedDenom::Native(coins[0].denom.clone())),
        Balance::Cw20 { address, amount } => (*amount, UncheckedDenom::Cw20(address.clone())),
    };
    let start = block.time / NANOS_PER_SECOND;
    assert(start <= u64::MAX / NANOS_PER_SECOND);
    let schedule = VestingCurve::saturating_linear((start, amount), (start + VESTING_PERIOD_SECONDS, 0));
    UncheckedVestingParams {
        recipient: sender.clone(),
        amount,
        denom,
        vesting_schedule: schedule,
        title: Some("vesting".to_owned()),
        description: None,
    }
}

/// The vesting parameters a message asks the payroll factory to start with.
pub open spec fn started_params(m: CampaignMsg) -> UncheckedVestingParams {
    match m {
        CampaignMsg::StartNativeVesting { params, .. } => params,
        CampaignMsg::StartCw20Vesting { params, .. } => params,
        _ => arbitrary(),
    }
}

/// Starts a vesting of `balance` for the sender through the payroll factory
/// (`payroll_factory`, the address the factory reports): native funds are
/// handed to it in a request to start a native vesting, cw20 funds are sent
/// to it by the token with the request attached.
pub fn instantiate_vesting(
    block: &BlockInfo,
    sender: &String,
    balance: &Balance,
    payroll_factory: String,
) -> (r: CampaignResponse)
    requires
        balance matches Balance::Native(coins) ==> coins@.len() > 0,
    ensures
        r.attributes@.len() == 0,
        r.messages@.len() == 1,
        ({
            let params = started_params(r.messages@[0]);
            &&& params.recipient == *sender
            &&& params.vesting_schedule@ == vesting_schedule_for(*block, params.amount)
            &&& schedule_verdict(params.vesting_schedule@, params.amount) is Ok
            &&& params.description is None
            &&& params.title matches Some(t) && t@ == "vesting"@
            &&& match balance {
                Balance::Native(coins) => {
                    &&& r.messages@[0] matches CampaignMsg::StartNativeVesting {
                        payroll_factory: pf,
                        label,
                        ..
                    } && pf == payroll_factory && label@ == "vesting"@
                    &&& params.amount == coins@[0].amount
                    &&& params.denom == UncheckedDenom::Native(coins@[0].denom)
                },
                Balance::Cw20 { address, amount } => {
                    &&& r.messages@[0] matches CampaignMsg::StartCw20Vesting {
                        token,
                        payroll_factory: pf,
                        amount: sent,
                        label,
                        ..
                    } && token == *address && pf == payroll_factory && sent == *amount && label@
                        == "vesting"@
                    &&& params.amount == *amount
                    &&& params.denom == UncheckedDenom::Cw20(*address)
                },
            }
        }),
{
    let params = vesting_params_for(block, sender, balance);
    let mut resp = Response::new();
    match balance {
        Balance::Native(_) => {
            resp.messages.push(
                CampaignMsg::StartNativeVesting {
                    payroll_factory,
                    params,
                    label: "vesting".to_owned(),
                },
            );
        },
        Balance::Cw20 { address, amount } => {
            resp.messages.push(
                CampaignMsg::StartCw20Vesting {
                    token: address.clone(),
                    payroll_factory,
                    amount: *amount,
                    params,
                    label: "vesting".to_owned(),
                },
            );
        },
    }
    resp
}

/// The sum of a sequence of amounts.
pub open spec fn sum_of(amounts: Seq<u128>) -> int
    decreases amounts.len(),
{
    if amounts.len() == 0 {
        0
    } else {
        sum_of(amounts.drop_last()) + amounts.last()
    }
}

/// Law: a refund returns exactly what the donor deposited.  The first
/// deposit mints the receipt with its payment and every later one appends
/// its amount, so the payments a refund sums are the deposits, in order.
pub proof fn lemma_refund_is_sum_of_deposits(deposits: Seq<u128>, payments: Seq<Payment>)
    requires
        payments.len() == deposits.len(),
        forall|i: int| 0 <= i < deposits.len() ==> #[trigger] payments[i].amount == deposits[i],
    ensures
        total_paid(payments) == sum_of(deposits),
    decreases deposits.len(),
{
    if deposits.len() > 0 {
        let (d, p) = (deposits.drop_last(), payments.drop_last());
        assert forall|i: int| 0 <= i < d.len() implies #[trigger] p[i].amount == d[i] by {
            assert(payments[i].amount == deposits[i]);
        }
        lemma_refund_is_sum_of_deposits(d, p);
        assert(payments[deposits.len() - 1].amount == deposits[deposits.len() - 1]);
    }
}

/// Law: a sender is paid by a redemption at most once.  Every redemption
/// that pays (`execute_redeem`'s `Done`, or `redeem_refund`) hands back the
/// record with the sender added, and `execute_redeem` refuses any sender
/// the record holds, so a later redemption by the same sender sends nothing.
pub proof fn lemma_redeems_once(redeemed: Seq<String>, sender: String)
    ensures
        has_redeemed(redeemed.push(sender), sender@),
{
    assert(redeemed.push(sender)[redeemed.len() as int]@ == sender@);
}

/// Law: the record of redeemed senders holds exactly the senders put in
/// it.  An empty record holds nobody, and adding `s` marks `s` and nobody
/// else, so one sender's redemption never refuses another sender.
pub proof fn lemma_record_holds_its_senders(redeemed: Seq<String>, s: String, t: Seq<char>)
    ensures
        !has_redeemed(Seq::<String>::empty(), t),
        has_redeemed(redeemed.push(s), t) <==> (has_redeemed(redeemed, t) || s@ == t),
{
    let pushed = redeemed.push(s);
    if has_redeemed(pushed, t) {
        let i = choose|i: int| 0 <= i < pushed.len() && #[trigger] pushed[i]@ == t;
        if i < redeemed.len() {
            assert(redeemed[i]@ == t);
        }
    }
    if has_redeemed(redeemed, t) {
        let i = choose|i: int| 0 <= i < redeemed.len() && #[trigger] redeemed[i]@ == t;
        assert(pushed[i]@ == t);
    }
    if s@ == t {
        assert(pushed[redeemed.len() as int]@ == t);
    }
}

} // verus!
