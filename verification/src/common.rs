//! Plain-value models of the chain data every contract reads (coins, block
//! info, message info, expirations, submessage replies), and the calls into
//! `cosmwasm_std` and `cw_utils` that compute on them.
use vstd::prelude::*;
use cosmwasm_std as cw;

verus! {

/// One second, in nanoseconds: block times are kept in nanoseconds.
pub const NANOS_PER_SECOND: u64 = 1_000_000_000;

/// An amount of a native token.
#[derive(Clone, Debug, PartialEq, Eq)]
pub struct Coin {
    pub denom: String,
    pub amount: u128,
}

/// The block a message is executed in; `time` counts nanoseconds since the epoch.
#[derive(Clone, Debug, PartialEq, Eq)]
pub struct BlockInfo {
    pub height: u64,
    pub time: u64,
    pub chain_id: String,
}

/// Who sent a message, and the native funds attached to it.
#[derive(Clone, Debug, PartialEq, Eq)]
pub struct MessageInfo {
    pub sender: String,
    pub funds: Vec<Coin>,
}

/// A point in time or height at which something happens; `AtTime` holds nanoseconds.
#[derive(Clone, Copy, Debug, PartialEq, Eq, Structural)]
pub enum Expiration {
    AtHeight(u64),
    AtTime(u64),
    Never,
}

/// A key/value pair of a response's event.
#[derive(Clone, Debug, PartialEq, Eq)]
pub struct Attribute {
    pub key: String,
    pub value: String,
}

/// What a submessage reported back to the contract that sent it: on success,
/// the data it returned, and on failure the error text.
#[derive(Clone, Debug, PartialEq, Eq)]
pub enum SubMsgResult {
    Succeeded { data: Option<Vec<u8>> },
    Failed(String),
}

/// A reply to a submessage, with the id the submessage was sent with.
#[derive(Clone, Debug, PartialEq, Eq)]
pub struct Reply {
    pub id: u64,
    pub result: SubMsgResult,
}

/// What an instantiation submessage reports: the new contract's address and
/// the data its instantiation returned.
#[derive(Clone, Debug, PartialEq, Eq)]
pub struct MsgInstantiateContractResponse {
    pub contract_address: String,
    pub data: Option<Vec<u8>>,
}

/// Why a reply could not be read as the result of an instantiation.
#[derive(Clone, Debug, PartialEq, Eq)]
pub enum ParseReplyError {
    SubMsgFailure(String),
    ParseFailure(String),
    BrokenUtf8,
}

/// The mathematical reading of a parsed instantiation reply.
pub enum InstantiateDecoding {
    Decoded { contract_address: Seq<char>, data: Option<Seq<u8>> },
    SubMsgFailure(Seq<char>),
    ParseFailure(Seq<char>),
    BrokenUtf8,
}

pub open spec fn opt_bytes_view(d: Option<Vec<u8>>) -> Option<Seq<u8>> {
    match d {
        Some(v) => Some(v@),
        None => None,
    }
}

pub open spec fn decoding_of(r: Result<MsgInstantiateContractResponse, ParseReplyError>) -> InstantiateDecoding {
    match r {
        Ok(resp) => InstantiateDecoding::Decoded {
            contract_address: resp.contract_address@,
            data: opt_bytes_view(resp.data),
        },
        Err(ParseReplyError::SubMsgFailure(m)) => InstantiateDecoding::SubMsgFailure(m@),
        Err(ParseReplyError::ParseFailure(m)) => InstantiateDecoding::ParseFailure(m@),
        Err(ParseReplyError::BrokenUtf8) => InstantiateDecoding::BrokenUtf8,
    }
}

/// The protobuf decoding, by `cw_utils`, of the data that an instantiation
/// submessage returns.
pub uninterp spec fn instantiate_response_decoding(data: Seq<u8>) -> InstantiateDecoding;

/// Calls `cw_utils::parse_reply_instantiate_data`.  A failed submessage
/// gives its error text back as a `SubMsgFailure`; a successful one without
/// data is a `ParseFailure` with the text "Missing reply data"; otherwise
/// the data is decoded as a protobuf instantiation response, whose outcome,
/// read back into plain values, is named `instantiate_response_decoding` of
/// those bytes.  Nothing more is claimed of that decoder.
#[verifier::external_body]
pub(crate) fn parse_reply_instantiate_data(msg: &Reply) -> (r: Result<
    MsgInstantiateContractResponse,
    ParseReplyError,
>)
    ensures
        decoding_of(r) == (match msg.result {
            SubMsgResult::Failed(e) => InstantiateDecoding::SubMsgFailure(e@),
            SubMsgResult::Succeeded { data: None } => InstantiateDecoding::ParseFailure(
                "Missing reply data"@,
            ),
            SubMsgResult::Succeeded { data: Some(d) } => instantiate_response_decoding(d@),
        }),
{
    let result = match &msg.result {
        SubMsgResult::Succeeded { data } => cw::SubMsgResult::Ok(
            cw::SubMsgResponse { events: vec![], data: data.clone().map(cw::Binary) },
        ),
        SubMsgResult::Failed(e) => cw::SubMsgResult::Err(e.clone()),
    };
    match cw_utils::parse_reply_instantiate_data(cw::Reply { id: msg.id, result }) {
        Ok(res) => Ok(MsgInstantiateContractResponse { contract_address: res.contract_address, data: res.data.map(|d| d.0) }),
        Err(cw_utils::ParseReplyError::SubMsgFailure(m)) => Err(ParseReplyError::SubMsgFailure(m)),
        Err(cw_utils::ParseReplyError::ParseFailure(m)) => Err(ParseReplyError::ParseFailure(m)),
        Err(cw_utils::ParseReplyError::BrokenUtf8(_)) => Err(ParseReplyError::BrokenUtf8),
    }
}

/// The instantiation reply was read back as a contract address.
pub open spec fn reply_decodes(result: SubMsgResult) -> bool {
    match result {
        SubMsgResult::Succeeded { data: Some(d) } => instantiate_response_decoding(d@) is Decoded,
        _ => false,
    }
}

/// The address an instantiation reply that decodes was read back as.
pub open spec fn reply_address(result: SubMsgResult) -> Seq<char> {
    match result {
        SubMsgResult::Succeeded { data: Some(d) } => instantiate_response_decoding(
            d@,
        )->Decoded_contract_address,
        _ => Seq::empty(),
    }
}

impl Expiration {
    /// Whether the expiration has been reached in `block`.
    pub open spec fn spec_is_expired(self, block: BlockInfo) -> bool {
        match self {
            Expiration::AtHeight(h) => block.height >= h,
            Expiration::AtTime(t) => block.time >= t,
            Expiration::Never => false,
        }
    }
}

/// Calls `cw_utils::Expiration::is_expired`, which compares the block's
/// height or time with the expiration, and is never reached for `Never`.
#[verifier::external_body]
pub fn is_expired(expiration: &Expiration, block: &BlockInfo) -> (r: bool)
    ensures
        r == expiration.spec_is_expired(*block),
{
    let e = match expiration {
        Expiration::AtHeight(h) => cw_utils::Expiration::AtHeight(*h),
        Expiration::AtTime(t) => cw_utils::Expiration::AtTime(cosmwasm_std::Timestamp::from_nanos(*t)),
        Expiration::Never => cw_utils::Expiration::Never {},
    };
    let time = cosmwasm_std::Timestamp::from_nanos(block.time);
    e.is_expired(&cosmwasm_std::BlockInfo { height: block.height, time, chain_id: block.chain_id.clone() })
}

/// Law: once reached, an expiration stays reached in every later block.
pub proof fn lemma_expiration_stays_reached(e: Expiration, earlier: BlockInfo, later: BlockInfo)
    requires
        earlier.height <= later.height,
        earlier.time <= later.time,
        e.spec_is_expired(earlier),
    ensures
        e.spec_is_expired(later),
{
}

/// A timestamp given in seconds, in nanoseconds.
pub fn seconds_to_nanos(seconds: u64) -> (r: u64)
    requires
        seconds * NANOS_PER_SECOND <= u64::MAX,
    ensures
        r == seconds * NANOS_PER_SECOND,
{
    seconds * NANOS_PER_SECOND
}

/// Why a payment attached to a message was refused.
#[derive(Clone, Debug, PartialEq, Eq)]
pub enum PaymentError {
    MissingDenom(String),
    ExtraDenom(String),
    MultipleDenoms,
    NoFunds,
    NonPayable,
}

/// What `must_pay` accepts: exactly one coin, of a non-zero amount, in `denom`.
pub open spec fn must_pay_spec(funds: Seq<Coin>, denom: Seq<char>) -> Option<u128> {
    if funds.len() == 1 && funds[0].amount != 0 && funds[0].denom@ == denom {
        Some(funds[0].amount)
    } else {
        None
    }
}

/// Calls `cw_utils::must_pay`: the amount paid when exactly one coin of a
/// non-zero amount in `denom` was sent, `None` when it reports any error.
#[verifier::external_body]
pub(crate) fn must_pay(info: &MessageInfo, denom: &String) -> (r: Option<u128>)
    ensures
        r == must_pay_spec(info.funds@, denom@),
{
    let funds = info.funds.iter().map(|c| cosmwasm_std::coin(c.amount, c.denom.clone())).collect();
    let info = cosmwasm_std::MessageInfo { sender: cosmwasm_std::Addr::unchecked(info.sender.clone()), funds };
    cw_utils::must_pay(&info, denom).ok().map(|a| a.u128())
}

/// The standard error of `cosmwasm_std`, held opaque.
#[verifier::external_type_specification]
#[verifier::external_body]
pub struct ExStdError(cosmwasm_std::StdError);

/// The overflow error of `cosmwasm_std`'s checked arithmetic, held opaque.
#[verifier::external_type_specification]
#[verifier::external_body]
pub struct ExOverflowError(cosmwasm_std::OverflowError);

/// The arithmetic operation an overflow happened in.
#[derive(Clone, Copy, Debug, PartialEq, Eq, Structural)]
pub enum OverflowOperation {
    Add,
    Sub,
}

/// The error `cosmwasm_std` reports for an overflow of `a op b`.
pub uninterp spec fn overflow_error_of(op: OverflowOperation, a: u128, b: u128) -> cosmwasm_std::OverflowError;

/// The standard error that wraps an overflow error.
pub uninterp spec fn std_error_from_overflow(e: cosmwasm_std::OverflowError) -> cosmwasm_std::StdError;

/// Calls `cosmwasm_std::Uint128::checked_add`: the sum when it fits in
/// `u128`, otherwise the overflow error built from the operands.
#[verifier::external_body]
pub(crate) fn checked_add_u128(a: u128, b: u128) -> (r: Result<u128, cosmwasm_std::OverflowError>)
    ensures
        match r {
            Ok(v) => a + b <= u128::MAX && v == a + b,
            Err(e) => a + b > u128::MAX && e == overflow_error_of(OverflowOperation::Add, a, b),
        },
{
    cosmwasm_std::Uint128::new(a).checked_add(cosmwasm_std::Uint128::new(b)).map(|v| v.u128())
}

/// Calls `cosmwasm_std::Uint128::checked_sub`: the difference when `b <= a`,
/// otherwise the overflow error built from the operands.
#[verifier::external_body]
pub(crate) fn checked_sub_u128(a: u128, b: u128) -> (r: Result<u128, cosmwasm_std::OverflowError>)
    ensures
        match r {
            Ok(v) => b <= a && v == a - b,
            Err(e) => a < b && e == overflow_error_of(OverflowOperation::Sub, a, b),
        },
{
    cosmwasm_std::Uint128::new(a).checked_sub(cosmwasm_std::Uint128::new(b)).map(|v| v.u128())
}

/// Calls `From<OverflowError> for StdError`, which wraps the overflow error.
#[verifier::external_body]
pub(crate) fn std_error_overflow(e: cosmwasm_std::OverflowError) -> (r: cosmwasm_std::StdError)
    ensures
        r == std_error_from_overflow(e),
{
    cosmwasm_std::StdError::from(e)
}

/// What a contract hands back to the chain: the attributes of its event and
/// the messages it sends, in order.
#[derive(Clone, Debug, PartialEq, Eq)]
pub struct Response<M> {
    pub attributes: Vec<Attribute>,
    pub messages: Vec<M>,
}

impl<M> Response<M> {
    /// A response with no attribute and no message.
    pub fn new() -> (r: Self)
        ensures
            r.attributes@.len() == 0,
            r.messages@.len() == 0,
    {
        Response { attributes: Vec::new(), messages: Vec::new() }
    }

    /// No attribute and no message.
    pub open spec fn is_empty(self) -> bool {
        self.attributes@.len() == 0 && self.messages@.len() == 0
    }
}

/// The attribute has this key and value.
pub open spec fn attr_is(a: Attribute, key: Seq<char>, value: Seq<char>) -> bool {
    a.key@ == key && a.value@ == value
}

/// Builds an attribute.
pub fn attr(key: &str, value: String) -> (a: Attribute)
    ensures
        a.key@ == key@,
        a.value@ == value@,
{
    Attribute { key: key.to_owned(), value }
}

} // verus!
