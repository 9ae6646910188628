use cosmwasm_std::StdError;
use crowdfund::common::{Coin, Reply, SubMsgResult};
use crowdfund::factory::{
    execute_create_campaign, execute_update_config, handle_campaign_creation_reply,
    handle_payroll_factory_init_reply, instantiate, query_campaigns, reply, CodeIds, campaign_of, record_campaign,
    Config, ContractError, FactoryMsg, InstantiateCampaignMsg, InstantiateMsg,
};

fn code_ids() -> CodeIds {
    CodeIds { cw3: 1, cw20: 2, campaign: 3, receipt: 4 }
}

fn config() -> Config {
    Config { admin: "admin".to_string(), code_ids: code_ids() }
}

#[test]
fn instantiate_defaults_the_admin_to_the_sender() {
    let (config, resp) = instantiate("sender".to_string(), InstantiateMsg { admin: None, code_ids: code_ids() });
    assert_eq!(config.admin, "sender");
    assert_eq!(resp.attributes[1].value, "sender");
    let (config, _) = instantiate("sender".to_string(), InstantiateMsg { admin: Some("boss".to_string()), code_ids: code_ids() });
    assert_eq!(config.admin, "boss");
    assert_eq!(config.code_ids, code_ids());
}

#[test]
fn one_campaign_per_creator() {
    let goal = Coin { denom: "ujuno".to_string(), amount: 10 };
    let err = execute_create_campaign(
        &config(), &vec![("alice".to_string(), "campaign1".to_string())], "alice".to_string(), "factory".to_string(),
        "Rocket".to_string(), 5, goal.clone(), "alice".to_string(),
    )
    .unwrap_err();
    assert_eq!(err, ContractError::TooManyCampaign);

    let (pending, resp) = execute_create_campaign(
        &config(), &vec![("bob".to_string(), "campaign2".to_string())], "alice".to_string(), "factory".to_string(),
        "Rocket".to_string(), 5, goal.clone(), "bob".to_string(),
    )
    .unwrap();
    assert_eq!(pending, "alice");
    assert_eq!(resp.attributes[0].value, "create_campaign");
    assert_eq!(resp.attributes[1].value, "alice");
    assert_eq!(
        resp.messages,
        vec![FactoryMsg::InstantiateCampaign {
            admin: "factory".to_string(),
            code_id: 3,
            msg: InstantiateCampaignMsg { name: "Rocket".to_string(), expiration: 5, goal, recipient: "bob".to_string() },
            label: "create campaign".to_string(),
            reply_id: 1,
        }]
    );
}

#[test]
fn only_the_admin_updates_the_config() {
    let new_ids = CodeIds { cw3: 9, cw20: 9, campaign: 9, receipt: 9 };
    let err = execute_update_config(config(), &"mallory".to_string(), None, new_ids).unwrap_err();
    assert_eq!(err, ContractError::Unauthorized);
    let err = execute_update_config(config(), &"admin".to_string(), Some(Err(StdError::generic_err("bad"))), new_ids).unwrap_err();
    assert_eq!(err, ContractError::Std(StdError::generic_err("bad")));
    let (c, resp) = execute_update_config(config(), &"admin".to_string(), None, new_ids).unwrap();
    assert_eq!(c, Config { admin: "admin".to_string(), code_ids: new_ids });
    assert_eq!(resp.attributes[0].value, "update_config");
    let (c, _) = execute_update_config(config(), &"admin".to_string(), Some(Ok("heir".to_string())), new_ids).unwrap();
    assert_eq!(c.admin, "heir");
}

fn entries(n: usize) -> Vec<(String, String)> {
    (0..n).map(|i| (format!("creator{:02}", i), format!("campaign{:02}", i))).collect()
}

#[test]
fn campaign_listing_is_bounded() {
    assert_eq!(query_campaigns(entries(50), None, None).campaigns, entries(10));
    assert_eq!(query_campaigns(entries(50), None, Some(3)).campaigns, entries(3));
    assert_eq!(query_campaigns(entries(50), None, Some(500)).campaigns, entries(30));
    assert_eq!(query_campaigns(entries(4), None, Some(20)).campaigns, entries(4));
}

#[test]
fn campaign_listing_starts_after_the_given_creator() {
    assert_eq!(query_campaigns(entries(4), Some("creator00".to_string()), Some(20)).campaigns, entries(4)[1..].to_vec());
    assert_eq!(query_campaigns(entries(50), Some("creator09".to_string()), Some(3)).campaigns, entries(13)[10..].to_vec());
    assert_eq!(query_campaigns(entries(50), Some("creator095".to_string()), Some(2)).campaigns, entries(12)[10..].to_vec());
    assert_eq!(query_campaigns(entries(1), Some("creator00".to_string()), None).campaigns, Vec::<(String, String)>::new());
    assert_eq!(query_campaigns(entries(3), Some("a".to_string()), None).campaigns, entries(3));
    assert_eq!(query_campaigns(entries(3), Some("z".to_string()), None).campaigns, Vec::<(String, String)>::new());
}

#[test]
fn recorded_creators_cannot_create_again() {
    let campaigns = record_campaign(entries(3), "creator015".to_string(), "campaignX".to_string());
    assert_eq!(campaigns.len(), 4);
    assert_eq!(campaigns[2], ("creator015".to_string(), "campaignX".to_string()));
    assert_eq!(campaign_of(&campaigns, &"creator015".to_string()), Some("campaignX".to_string()));
    let campaigns = record_campaign(campaigns, "creator01".to_string(), "campaignY".to_string());
    assert_eq!(campaigns.len(), 4);
    assert_eq!(campaigns[1], ("creator01".to_string(), "campaignY".to_string()));
    let campaigns = record_campaign(campaigns, "é".to_string(), "campaignZ".to_string());
    assert_eq!(campaigns[4].0, "é");
    let goal = Coin { denom: "ujuno".to_string(), amount: 10 };
    let err = execute_create_campaign(
        &config(), &campaigns, "creator015".to_string(), "factory".to_string(),
        "Rocket".to_string(), 5, goal, "alice".to_string(),
    )
    .unwrap_err();
    assert_eq!(err, ContractError::TooManyCampaign);
}

fn instantiate_reply(id: u64, address: &str) -> Reply {
    let mut data = vec![0x0a, address.len() as u8];
    data.extend_from_slice(address.as_bytes());
    Reply { id, result: SubMsgResult::Succeeded { data: Some(data) } }
}

#[test]
fn creation_reply_records_the_campaign() {
    let ((creator, address), resp) = reply(Ok("alice".to_string()), instantiate_reply(1, "campaign5")).unwrap().unwrap();
    assert_eq!((creator.as_str(), address.as_str()), ("alice", "campaign5"));
    assert!(resp.messages.is_empty());
    assert_eq!(resp.attributes.len(), 2);
    assert_eq!(resp.attributes[0].key, "action");
    assert_eq!(resp.attributes[0].value, "instantiated by factory");
    assert_eq!(resp.attributes[1].key, "campaign_addr");
    assert_eq!(resp.attributes[1].value, "campaign5");
    let err = reply(Ok("alice".to_string()), instantiate_reply(2, "payroll")).unwrap().unwrap_err();
    assert_eq!(err, ContractError::UnknownReplyID);
    let err = reply(Err(StdError::not_found("creator")), instantiate_reply(1, "c")).unwrap().unwrap_err();
    assert_eq!(err, ContractError::Std(StdError::not_found("creator")));
    let err = handle_campaign_creation_reply(Err(StdError::not_found("creator")), "c".to_string()).unwrap_err();
    assert_eq!(err, ContractError::Std(StdError::not_found("creator")));
    assert!(reply(Ok("alice".to_string()), Reply { id: 1, result: SubMsgResult::Failed("no".to_string()) }).is_none());
    assert!(reply(Ok("alice".to_string()), Reply { id: 1, result: SubMsgResult::Succeeded { data: None } }).is_none());
}

#[test]
fn payroll_factory_reply_records_the_address() {
    let (address, resp) = handle_payroll_factory_init_reply(instantiate_reply(2, "payroll1")).unwrap();
    assert!(resp.messages.is_empty());
    assert_eq!(resp.attributes.len(), 2);
    assert_eq!(resp.attributes[0].key, "method");
    assert_eq!(resp.attributes[1].key, "address");
    assert_eq!(address, "payroll1");
    assert_eq!(resp.attributes[0].value, "instantiate payroll factory");
    assert_eq!(resp.attributes[1].value, "payroll1");
}
