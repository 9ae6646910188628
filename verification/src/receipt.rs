//! The campaign receipt: a non-transferable NFT that every donor of a
//! campaign holds, whose metadata lists the donor's payments.  The first
//! deposit mints it, every later one appends a payment.
use vstd::prelude::*;

use crate::common::{BlockInfo, Response};

verus! {

/// One payment into a campaign: its amount, and when it was made
/// (nanoseconds since the epoch).
#[derive(Clone, Copy, Debug, PartialEq, Eq, Structural)]
pub struct Payment {
    pub amount: u128,
    pub date: u64,
}

impl Default for Payment {
    fn default() -> (r: Self)
        ensures
            r.amount == 0,
            r.date == 0,
    {
        Payment { amount: 0, date: 0 }
    }
}

/// The metadata of a receipt: every payment of its holder, in order.
#[derive(Clone, Debug, PartialEq, Eq)]
pub struct Metadata {
    pub payments: Vec<Payment>,
}

impl Default for Metadata {
    fn default() -> (r: Self)
        ensures
            r.payments@.len() == 0,
    {
        Metadata { payments: Vec::new() }
    }
}

/// The sum of the payments' amounts.
pub open spec fn total_paid(payments: Seq<Payment>) -> int
    decreases payments.len(),
{
    if payments.len() == 0 {
        0
    } else {
        total_paid(payments.drop_last()) + payments.last().amount
    }
}

/// A new receipt to mint.
#[derive(Clone, Debug, PartialEq)]
pub struct MintMsg<T> {
    pub token_id: String,
    pub owner: String,
    pub token_uri: Option<String>,
    pub extension: T,
}

/// What the receipt contract executes.
#[derive(Clone, Debug, PartialEq)]
pub enum ExecuteMsg<T> {
    /// Mint a new NFT, can only be called by the contract minter
    Mint(MintMsg<T>),
    /// Updates metadata of the NFT
    UpdateMetadata { token_id: String, amount: u128 },
    Burn { token_id: String },
}

/// What the receipt contract answers.
#[derive(Clone, Debug, PartialEq, Eq)]
pub enum QueryMsg {
    GetTotalInvested { address: String },
}

/// Why a receipt operation was refused.
#[derive(Debug, PartialEq)]
pub enum ContractError {
    Std(cosmwasm_std::StdError),
    Unauthorized,
    InvalidAdmin,
    UnknownReplyID,
}

/// The receipt contract has no message of its own to send.
pub type ReceiptResponse = Response<()>;

/// Appends a payment of `amount`, dated at the block's time, to the
/// receipt `token_id`.  Only the minter (the campaign) may do so;
/// `nft_info` is what the contract's own query reported of the receipt's
/// metadata, and `token_exists` whether the receipt is in its store.  The
/// result is the receipt's new metadata.
pub fn execute_update_on_chain_metadata(
    minter: &String,
    sender: &String,
    token_exists: bool,
    nft_info: Result<Metadata, cosmwasm_std::StdError>,
    amount: u128,
    block: &BlockInfo,
) -> (r: Result<Metadata, ContractError>)
    ensures
        sender@ != minter@ ==> r == Err::<Metadata, ContractError>(ContractError::Unauthorized),
        sender@ == minter@ && nft_info is Err ==> r == Err::<Metadata, ContractError>(
            ContractError::Std(nft_info->Err_0),
        ),
        sender@ == minter@ && nft_info is Ok && !token_exists ==> r == Err::<
            Metadata,
            ContractError,
        >(ContractError::Unauthorized),
        sender@ == minter@ && nft_info is Ok && token_exists ==> (r matches Ok(m) && m.payments@
            == nft_info->Ok_0.payments@.push(Payment { amount, date: block.time })),
{
    if *sender != *minter {
        return Err(ContractError::Unauthorized);
    }
    let mut info = match nft_info {
        Err(e) => return Err(ContractError::Std(e)),
        Ok(m) => m,
    };
    info.payments.push(Payment { amount, date: block.time });
    if !token_exists {
        return Err(ContractError::Unauthorized);
    }
    Ok(Metadata { payments: info.payments })
}

/// Burning is accepted and changes nothing.
pub fn execute_burn(_token_id: String) -> (r: ReceiptResponse)
    ensures
        r.is_empty(),
{
    Response::new()
}

/// A receipt contract, by its address.
#[derive(Clone, Debug, PartialEq, Eq)]
pub struct NftContract(pub String);

impl NftContract {
    pub fn addr(&self) -> (r: String)
        ensures
            r == self.0,
    {
        self.0.clone()
    }
}

/// Adding a payment adds its amount to the total paid.
pub proof fn lemma_total_paid_push(payments: Seq<Payment>, p: Payment)
    ensures
        total_paid(payments.push(p)) == total_paid(payments) + p.amount,
{
    assert(payments.push(p).drop_last() =~= payments);
}

/// Law: a donor's total grows by exactly the amount of each accepted top-up.
pub proof fn lemma_top_up_adds_amount(
    before: Metadata,
    amount: u128,
    block: BlockInfo,
    after: Metadata,
)
    requires
        after.payments@ == before.payments@.push(Payment { amount, date: block.time }),
    ensures
        total_paid(after.payments@) == total_paid(before.payments@) + amount,
        after.payments@.len() == before.payments@.len() + 1,
        after.payments@.subrange(0, before.payments@.len() as int) == before.payments@,
{
    lemma_total_paid_push(before.payments@, Payment { amount, date: block.time });
    assert(after.payments@.subrange(0, before.payments@.len() as int) =~= before.payments@);
}

} // verus!
