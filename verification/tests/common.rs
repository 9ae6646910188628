use crowdfund::campaign::{reply, Config};
use crowdfund::common::{Coin, Reply, SubMsgResult};

fn config() -> Config {
    Config {
        name: "Rocket".to_string(),
        expiration: 10,
        goal: Coin { denom: "ujuno".to_string(), amount: 5 },
        recipient: "creator".to_string(),
        payroll_factory_code_id: 0,
        vesting_code_id: 0,
        receipt_contract: String::new(),
        factory_contract: "factory".to_string(),
        token_contract: String::new(),
        payroll_factory_contract: String::new(),
    }
}

#[test]
fn instantiation_replies_are_decoded() {
    let mut data = vec![0x0a, 9];
    data.extend_from_slice(b"contract1");
    data.extend_from_slice(&[0x12, 2, 0xab, 0xcd]);
    let (c, _) = reply(config(), Reply { id: 1, result: SubMsgResult::Succeeded { data: Some(data) } }).unwrap().unwrap();
    assert_eq!(c.receipt_contract, "contract1");
}

#[test]
fn failed_empty_or_broken_replies_are_refused() {
    assert!(reply(config(), Reply { id: 1, result: SubMsgResult::Failed("boom".to_string()) }).is_none());
    assert!(reply(config(), Reply { id: 1, result: SubMsgResult::Succeeded { data: None } }).is_none());
    assert!(reply(config(), Reply { id: 2, result: SubMsgResult::Succeeded { data: Some(vec![0x12, 1, 0]) } }).is_none());
    assert!(reply(config(), Reply { id: 2, result: SubMsgResult::Succeeded { data: Some(vec![0x0a, 2, 0xff, 0xfe]) } }).is_none());
}
