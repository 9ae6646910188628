use cosmwasm_std::StdError;
use crowdfund::campaign::{
    check_if_expired, check_if_goal_reached, execute_deposit, execute_redeem, instantiate,
    instantiate_response, instantiate_vesting, query, redeem_refund, reply,
    vesting_params_for, Balance, CampaignMsg, Collected, Config, ContractError, InstantiateMsg,
    QueryMsg, QueryResponse, RedeemStep,
};
use crowdfund::common::{BlockInfo, Coin, MessageInfo, Reply, SubMsgResult, NANOS_PER_SECOND};
use crowdfund::curve::VestingCurve;
use crowdfund::factory::CodeIds;
use crowdfund::receipt::Payment;
use crowdfund::vesting::{UncheckedDenom, VestingPayment};

const END: u64 = 2_000_000_000;

fn block_at(seconds: u64) -> BlockInfo {
    BlockInfo { height: 100, time: seconds * NANOS_PER_SECOND + 7, chain_id: "testing".to_string() }
}

fn goal() -> Coin {
    Coin { denom: "ujuno".to_string(), amount: 1_000 }
}

fn msg() -> InstantiateMsg {
    InstantiateMsg { name: "Rocket".to_string(), expiration: END, goal: goal(), recipient: "creator".to_string() }
}

fn config() -> Config {
    let (config, _) = instantiate(&block_at(END - 10), "factory".to_string(), msg(), Ok("creator".to_string())).unwrap();
    Config { receipt_contract: "receipt".to_string(), ..config }
}

fn pay(sender: &str, amount: u128) -> MessageInfo {
    MessageInfo { sender: sender.to_string(), funds: vec![Coin { denom: "ujuno".to_string(), amount }] }
}

#[test]
fn instantiate_refuses_an_end_in_the_past() {
    let err = instantiate(&block_at(END), "factory".to_string(), msg(), Ok("creator".to_string())).unwrap_err();
    assert_eq!(err, ContractError::ExpirationInPast { provided: END.to_string() });
}

#[test]
fn instantiate_refuses_an_empty_goal() {
    let mut m = msg();
    m.goal.amount = 0;
    let err = instantiate(&block_at(10), "factory".to_string(), m, Ok("creator".to_string())).unwrap_err();
    assert_eq!(err, ContractError::EmptyGoal);
}

#[test]
fn instantiate_refuses_an_invalid_recipient() {
    let err = instantiate(&block_at(10), "factory".to_string(), msg(), Err(StdError::generic_err("bad address"))).unwrap_err();
    assert_eq!(err, ContractError::Std(StdError::generic_err("bad address")));
}

#[test]
fn instantiate_starts_with_nothing_collected() {
    let (config, collected) =
        instantiate(&block_at(10), "factory".to_string(), msg(), Ok("creator".to_string())).unwrap();
    assert_eq!(config.name, "Rocket");
    assert_eq!(config.expiration, END);
    assert_eq!(config.goal, goal());
    assert_eq!(config.recipient, "creator");
    assert_eq!(config.factory_contract, "factory");
    assert_eq!(config.receipt_contract, "");
    assert_eq!(config.token_contract, "");
    assert_eq!(collected.coin, Coin { denom: "ujuno".to_string(), amount: 0 });
    assert!(!check_if_goal_reached(&config, &collected));
}

#[test]
fn instantiate_response_sends_both_instantiations() {
    let c = config();
    let code_ids = CodeIds { cw3: 1, cw20: 2, campaign: 3, receipt: 4 };
    let resp = instantiate_response(&c, &"campaign1".to_string(), &code_ids);
    let attrs: Vec<(String, String)> = resp.attributes.iter().map(|a| (a.key.clone(), a.value.clone())).collect();
    assert_eq!(
        attrs,
        vec![
            ("method".to_string(), "instantiate".to_string()),
            ("creator".to_string(), "factory".to_string()),
            ("campaign_name".to_string(), "Rocket".to_string()),
            ("campaign_goal".to_string(), "1000ujuno".to_string()),
            ("expiration".to_string(), "2000000000".to_string()),
        ]
    );
    assert_eq!(
        resp.messages,
        vec![
            CampaignMsg::InstantiateReceipt {
                admin: "campaign1".to_string(),
                code_id: 4,
                name: "Rocket".to_string(),
                symbol: "campaign_receipt".to_string(),
                minter: "campaign1".to_string(),
                label: "campaign receipt".to_string(),
                reply_id: 1,
            },
            CampaignMsg::InstantiateToken {
                admin: "campaign1".to_string(),
                code_id: 2,
                name: "Rocket".to_string(),
                symbol: "PRJCT-SRC".to_string(),
                decimals: 6,
                minter: "campaign1".to_string(),
                label: "campaign token".to_string(),
                reply_id: 2,
            },
        ]
    );
}

#[test]
fn first_deposit_mints_a_receipt() {
    let c = config();
    let collected = Collected { coin: Coin { denom: "ujuno".to_string(), amount: 5 } };
    let (after, resp) = execute_deposit(&c, &collected, &block_at(END - 1), &pay("alice", 300), false).unwrap();
    assert_eq!(after.coin, Coin { denom: "ujuno".to_string(), amount: 305 });
    assert_eq!(resp.attributes[0].key, "execute");
    assert_eq!(resp.attributes[0].value, "deposit");
    assert_eq!(resp.attributes[1].key, "action");
    assert_eq!(resp.attributes[1].value, "donating");
    assert_eq!(
        resp.messages,
        vec![CampaignMsg::MintReceipt {
            contract: "receipt".to_string(),
            token_id: "alice".to_string(),
            owner: "alice".to_string(),
            payment: Payment { amount: 300, date: (END - 1) * NANOS_PER_SECOND },
        }]
    );
}

#[test]
fn later_deposit_tops_up_the_receipt() {
    let c = config();
    let collected = Collected { coin: goal() };
    let (after, resp) = execute_deposit(&c, &collected, &block_at(END - 1), &pay("alice", 20), true).unwrap();
    assert_eq!(after.coin.amount, 1_020);
    assert_eq!(resp.attributes[1].value, "top-up");
    assert_eq!(
        resp.messages,
        vec![CampaignMsg::TopUpReceipt { contract: "receipt".to_string(), token_id: "alice".to_string(), amount: 20 }]
    );
}

#[test]
fn deposit_after_the_end_is_refused() {
    let c = config();
    let err = execute_deposit(&c, &Collected { coin: goal() }, &block_at(END), &pay("alice", 20), false).unwrap_err();
    assert_eq!(err, ContractError::Expired);
    assert_eq!(check_if_expired(&c, &block_at(END)).unwrap_err(), ContractError::Expired);
    assert_eq!(check_if_expired(&c, &block_at(END - 1)).unwrap(), false);
}

#[test]
fn deposit_overflowing_the_collected_amount_is_refused() {
    let c = config();
    let collected = Collected { coin: Coin { denom: "ujuno".to_string(), amount: u128::MAX } };
    let err = execute_deposit(&c, &collected, &block_at(END - 1), &pay("alice", 1), false).unwrap_err();
    assert!(matches!(err, ContractError::Std(StdError::Overflow { .. })));
}

#[test]
fn deposits_reach_the_goal() {
    let c = config();
    let (_, start) = instantiate(&block_at(10), "factory".to_string(), msg(), Ok("creator".to_string())).unwrap();
    let (after, _) = execute_deposit(&c, &start, &block_at(END - 1), &pay("alice", 600), false).unwrap();
    assert!(!check_if_goal_reached(&c, &after));
    let (after, _) = execute_deposit(&c, &after, &block_at(END - 1), &pay("bob", 400), false).unwrap();
    assert_eq!(after.coin.amount, 1_000);
    assert!(check_if_goal_reached(&c, &after));
}

#[test]
fn redeem_waits_for_the_end_and_needs_a_receipt() {
    let c = config();
    let collected = Collected { coin: goal() };
    assert_eq!(
        execute_redeem(&c, &collected, &block_at(END - 1), "alice".to_string(), true, vec![]).unwrap_err(),
        ContractError::CustomError { val: "Campaign is still running".to_string() }
    );
    assert_eq!(
        execute_redeem(&c, &collected, &block_at(END), "alice".to_string(), false, vec![]).unwrap_err(),
        ContractError::NothingToRedeem
    );
}

#[test]
fn redeem_happens_only_once() {
    let c = config();
    let collected = Collected { coin: Coin { denom: "ujuno".to_string(), amount: 999 } };
    assert!(execute_redeem(&c, &collected, &block_at(END), "alice".to_string(), true, vec![]).is_ok());
    let payments = vec![Payment { amount: 100, date: 1 }];
    let (_, redeemed) = redeem_refund("ujuno".to_string(), "alice".to_string(), 500, &payments, vec![]).unwrap();
    assert_eq!(redeemed, vec!["alice".to_string()]);
    assert_eq!(
        execute_redeem(&c, &collected, &block_at(END), "alice".to_string(), true, redeemed).unwrap_err(),
        ContractError::NothingToRedeem
    );
    assert_eq!(
        execute_redeem(&c, &collected, &block_at(END), "alice".to_string(), true, vec!["bob".to_string(), "alice".to_string()]).unwrap_err(),
        ContractError::NothingToRedeem
    );
    assert_eq!(
        execute_redeem(&c, &Collected { coin: goal() }, &block_at(END), "creator".to_string(), false, vec!["creator".to_string()]).unwrap_err(),
        ContractError::NothingToRedeem
    );
}

#[test]
fn recipient_claims_the_funds_when_the_goal_is_reached() {
    let c = config();
    let collected = Collected { coin: Coin { denom: "ujuno".to_string(), amount: 1_250 } };
    let step = execute_redeem(&c, &collected, &block_at(END), "creator".to_string(), false, vec![]).unwrap();
    match step {
        RedeemStep::Done { response, redeemed } => {
            assert_eq!(
                response.messages,
                vec![CampaignMsg::BankSend { to_address: "creator".to_string(), denom: "ujuno".to_string(), amount: 1_250 }]
            );
            assert_eq!(redeemed, vec!["creator".to_string()]);
        }
        RedeemStep::Refund { .. } => panic!("no refund expected"),
    }
}

#[test]
fn donor_gets_the_campaign_token_when_the_goal_is_reached() {
    let c = Config { token_contract: "token".to_string(), ..config() };
    let step = execute_redeem(&c, &Collected { coin: goal() }, &block_at(END), "alice".to_string(), true, vec![]).unwrap();
    match step {
        RedeemStep::Done { response: resp, redeemed } => {
            assert_eq!(redeemed, vec!["alice".to_string()]);
            assert!(resp.attributes.is_empty());
            assert_eq!(
                resp.messages,
                vec![CampaignMsg::MintToken { contract: "token".to_string(), recipient: "alice".to_string(), amount: 1_000_000 }]
            );
        }
        RedeemStep::Refund { .. } => panic!("no refund expected"),
    }
    let step = execute_redeem(&config(), &Collected { coin: goal() }, &block_at(END), "alice".to_string(), true, vec![]).unwrap();
    assert_eq!(
        step,
        RedeemStep::Done {
            response: crowdfund::common::Response { attributes: vec![], messages: vec![] },
            redeemed: vec!["alice".to_string()],
        }
    );
}

#[test]
fn redeem_below_the_goal_refunds_the_receipt() {
    let c = config();
    let collected = Collected { coin: Coin { denom: "ujuno".to_string(), amount: 999 } };
    let step = execute_redeem(&c, &collected, &block_at(END), "alice".to_string(), true, vec![]).unwrap();
    assert_eq!(step, RedeemStep::Refund { denom: "ujuno".to_string(), token_id: "alice".to_string() });
    let payments = vec![Payment { amount: 100, date: 1 }, Payment { amount: 250, date: 2 }];
    let (resp, redeemed) = redeem_refund("ujuno".to_string(), "alice".to_string(), 350, &payments, vec!["bob".to_string()]).unwrap();
    assert_eq!(redeemed, vec!["bob".to_string(), "alice".to_string()]);
    assert_eq!(
        resp.messages,
        vec![CampaignMsg::BankSend { to_address: "alice".to_string(), denom: "ujuno".to_string(), amount: 350 }]
    );
    let err = redeem_refund("ujuno".to_string(), "alice".to_string(), 349, &payments, vec![]).unwrap_err();
    assert_eq!(err, ContractError::NotEnoughFunds);
}

fn instantiate_reply(id: u64, address: &str) -> Reply {
    let mut data = vec![0x0a, address.len() as u8];
    data.extend_from_slice(address.as_bytes());
    Reply { id, result: SubMsgResult::Succeeded { data: Some(data) } }
}

#[test]
fn replies_store_the_new_contracts() {
    let c = config();
    let (c, resp) = reply(c, instantiate_reply(1, "receipt7")).unwrap().unwrap();
    assert_eq!(c.receipt_contract, "receipt7");
    assert!(resp.messages.is_empty());
    assert_eq!(resp.attributes.len(), 2);
    assert_eq!(resp.attributes[0].key, "action");
    assert_eq!(resp.attributes[0].value, "instantiated by factory");
    assert_eq!(resp.attributes[1].key, "receipt_address");
    assert_eq!(resp.attributes[1].value, "receipt7");
    let (c, resp) = reply(c, instantiate_reply(2, "token9")).unwrap().unwrap();
    assert_eq!(c.token_contract, "token9");
    assert_eq!(c.receipt_contract, "receipt7");
    assert_eq!(resp.attributes[1].value, "token9");
    assert_eq!(reply(c.clone(), instantiate_reply(3, "x")).unwrap().unwrap_err(), ContractError::UnknownReplyID);
}

#[test]
fn reply_gives_up_on_an_undecodable_reply() {
    let c = config();
    let failed = Reply { id: 1, result: SubMsgResult::Failed("out of gas".to_string()) };
    assert!(reply(c.clone(), failed).is_none());
    let missing = Reply { id: 2, result: SubMsgResult::Succeeded { data: None } };
    assert!(reply(c.clone(), missing).is_none());
    let broken = Reply { id: 1, result: SubMsgResult::Succeeded { data: Some(vec![0x12, 1, 0]) } };
    assert!(reply(c.clone(), broken).is_none());
    let unknown = Reply { id: 9, result: SubMsgResult::Succeeded { data: None } };
    assert_eq!(reply(c, unknown).unwrap().unwrap_err(), ContractError::UnknownReplyID);
}

#[test]
fn query_answers_config_and_collected() {
    let c = config();
    let collected = Collected { coin: goal() };
    assert_eq!(query(c.clone(), collected.clone(), QueryMsg::GetConfig), QueryResponse::Config(c.clone()));
    assert_eq!(query(c, collected.clone(), QueryMsg::GetCollected), QueryResponse::Collected(collected));
}

#[test]
fn vesting_params_vest_the_whole_balance() {
    let native = Balance::Native(vec![Coin { denom: "ujuno".to_string(), amount: 42 }]);
    let params = vesting_params_for(&block_at(1_000), &"bob".to_string(), &native);
    assert_eq!(params.recipient, "bob");
    assert_eq!(params.amount, 42);
    assert_eq!(params.denom, UncheckedDenom::Native("ujuno".to_string()));
    assert_eq!(
        params.vesting_schedule,
        VestingCurve::SaturatingLinear { min_x: 1_000, min_y: 42, max_x: 1_150, max_y: 0 }
    );
    assert_eq!(params.title, Some("vesting".to_string()));
    assert_eq!(params.description, None);
    assert_eq!(params.assert_schedule_vests_amount(), Ok(()));
    let checked = params.clone().into_checked(Ok("bob".to_string()), None).unwrap();
    let payment = VestingPayment::new(checked).unwrap();
    assert_eq!(payment.get_vested_amount_by_seconds(1_000), Ok(0));
    assert_eq!(payment.get_vested_amount_by_seconds(1_075), Ok(21));
    assert_eq!(payment.get_vested_amount_by_seconds(1_150), Ok(42));
    let cw20 = Balance::Cw20 { address: "token".to_string(), amount: 7 };
    assert_eq!(vesting_params_for(&block_at(5), &"bob".to_string(), &cw20).denom, UncheckedDenom::Cw20("token".to_string()));
}

#[test]
fn vesting_is_started_through_the_payroll_factory() {
    let native = Balance::Native(vec![Coin { denom: "ujuno".to_string(), amount: 42 }]);
    let resp = instantiate_vesting(&block_at(1_000), &"bob".to_string(), &native, "payroll".to_string());
    assert!(resp.attributes.is_empty());
    assert_eq!(
        resp.messages,
        vec![CampaignMsg::StartNativeVesting {
            payroll_factory: "payroll".to_string(),
            params: vesting_params_for(&block_at(1_000), &"bob".to_string(), &native),
            label: "vesting".to_string(),
        }]
    );
    let cw20 = Balance::Cw20 { address: "token".to_string(), amount: 7 };
    let resp = instantiate_vesting(&block_at(1_000), &"bob".to_string(), &cw20, "payroll".to_string());
    assert_eq!(
        resp.messages,
        vec![CampaignMsg::StartCw20Vesting {
            token: "token".to_string(),
            payroll_factory: "payroll".to_string(),
            amount: 7,
            params: vesting_params_for(&block_at(1_000), &"bob".to_string(), &cw20),
            label: "vesting".to_string(),
        }]
    );
}
