use crowdfund::common::{is_expired, BlockInfo, Expiration, NANOS_PER_SECOND};
use crowdfund::deposit::Cw20Deposits;

fn block_at(seconds: u64) -> BlockInfo {
    BlockInfo { height: 12_345, time: seconds * NANOS_PER_SECOND, chain_id: "cosmos-testnet-14002".to_string() }
}

#[test]
fn deposit_cw20_and_withdraw_after_expiration_has_passed() {}

#[test]
fn staked_deposit_expires_at_its_stake_time() {
    let deposit = Cw20Deposits {
        count: 1,
        owner: "juno10c3slrqx3369mfsr9670au22zvq082jaej8ve4".to_string(),
        contract: "contract1".to_string(),
        amount: 500,
        stake_time: Expiration::AtTime(1_000 * NANOS_PER_SECOND),
    };
    // staked: not withdrawable before the expiration
    assert!(!is_expired(&deposit.stake_time, &block_at(999)));
    // the expiration has passed: withdrawable
    assert!(is_expired(&deposit.stake_time, &block_at(1_000)));
    assert!(is_expired(&deposit.stake_time, &block_at(2_000)));
}

#[test]
fn expiration_by_height_and_never() {
    let block = block_at(10);
    assert!(is_expired(&Expiration::AtHeight(12_345), &block));
    assert!(!is_expired(&Expiration::AtHeight(12_346), &block));
    assert!(!is_expired(&Expiration::Never, &block));
}
