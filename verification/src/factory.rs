//! The campaign factory: it holds the code ids of the contracts a campaign
//! needs, creates campaigns (one per creator) and records the address of
//! each campaign it created.
use vstd::prelude::*;

use crate::common::{
    attr, attr_is, parse_reply_instantiate_data, reply_address, reply_decodes, Coin, Expiration,
    Reply, Response,
};
use crate::keys::{key_before, key_comes_before, lemma_key_irreflexive, lemma_key_total, lemma_key_transitive};

verus! {

/// Reply id of the instantiation of a campaign.
pub const CREATE_CAMPAIGN_REPLY_ID: u64 = 1;

/// Reply id of the instantiation of a payroll factory.
pub const INIT_PAYROLL_FACTORY_REPLY_ID: u64 = 2;

/// How many campaigns a listing returns when no limit is given.
pub const DEFAULT_LIMIT: u32 = 10;

/// The most campaigns a listing returns.
pub const MAX_LIMIT: u32 = 30;

/// The code ids of the contracts that a campaign instantiates.
#[derive(Clone, Copy, Debug, PartialEq, Eq, Structural)]
pub struct CodeIds {
    pub cw3: u64,
    pub cw20: u64,
    pub campaign: u64,
    pub receipt: u64,
}

/// The factory's configuration.
#[derive(Clone, Debug, PartialEq, Eq)]
pub struct Config {
    pub admin: String,
    pub code_ids: CodeIds,
}

/// Instantiation of the factory; `admin` defaults to the sender.
#[derive(Clone, Debug, PartialEq, Eq)]
pub struct InstantiateMsg {
    pub admin: Option<String>,
    pub code_ids: CodeIds,
}

/// Instantiation of a campaign, as the factory sends it.
#[derive(Clone, Debug, PartialEq, Eq)]
pub struct InstantiateCampaignMsg {
    pub name: String,
    pub expiration: u64,
    pub goal: Coin,
    pub recipient: String,
}

/// What the factory executes.
#[derive(Clone, Debug, PartialEq, Eq)]
pub enum ExecuteMsg {
    CreateCampaign { name: String, expiration: u64, goal: Coin, recipient: String },
    UpdateConfig { admin: Option<String>, code_ids: CodeIds },
}

/// What the factory answers.
#[derive(Clone, Debug, PartialEq, Eq)]
pub enum QueryMsg {
    GetConfig,
    GetCampaigns { start_after: Option<String>, limit: Option<u32> },
}

#[derive(Clone, Debug, PartialEq, Eq)]
pub struct MigrateMsg {}

/// The initial balance of a cw20 token.
#[derive(Clone, Debug, PartialEq, Eq)]
pub struct Cw20Coin {
    pub address: String,
    pub amount: u128,
}

/// Who may mint a cw20 token, and up to how much.
#[derive(Clone, Debug, PartialEq, Eq)]
pub struct MinterResponse {
    pub minter: String,
    pub cap: Option<u128>,
}

/// Marketing information of a cw20 token.
#[derive(Clone, Debug, PartialEq, Eq)]
pub struct Cw20Marketing {
    pub project: Option<String>,
    pub description: Option<String>,
    pub marketing: Option<String>,
}

/// Instantiation of a cw20 token.
#[derive(Clone, Debug, PartialEq, Eq)]
pub struct Cw20InstantiateMsg {
    pub name: String,
    pub symbol: String,
    pub decimals: u8,
    pub initial_balances: Vec<Cw20Coin>,
    pub mint: Option<MinterResponse>,
    pub marketing: Option<Cw20Marketing>,
}

/// How a pool's token is instantiated.
#[derive(Clone, Debug, PartialEq, Eq)]
pub enum InitMsgEnum {
    Cw20InitMsg { msg: Cw20InstantiateMsg },
    Cw721InitMsg { name: String, symbol: String, minter: String },
}

/// A pool of a campaign.
#[derive(Clone, Debug, PartialEq, Eq)]
pub struct PoolInfo {
    pub name: String,
    pub symbol: String,
    pub expiration: Expiration,
    pub init_msg: InitMsgEnum,
}

/// A page of the campaigns the factory created: creator and campaign address.
#[derive(Clone, Debug, PartialEq, Eq)]
pub struct CampaignsResponse {
    pub campaigns: Vec<(String, String)>,
}

/// Why a factory operation was refused.
#[derive(Debug, PartialEq)]
pub enum ContractError {
    Std(cosmwasm_std::StdError),
    Unauthorized,
    InvalidAdmin,
    TooManyCampaign,
    UnknownReplyID,
}

/// A message the factory sends.
#[derive(Clone, Debug, PartialEq, Eq)]
pub enum FactoryMsg {
    /// Instantiate a campaign with `admin` as its admin, replying with `reply_id` on success.
    InstantiateCampaign {
        admin: String,
        code_id: u64,
        msg: InstantiateCampaignMsg,
        label: String,
        reply_id: u64,
    },
}

pub type FactoryResponse = Response<FactoryMsg>;

/// Instantiates the factory.  `msg.admin`, when given, is the address the
/// chain validated; without it the sender becomes the admin.
pub fn instantiate(sender: String, msg: InstantiateMsg) -> (r: (Config, FactoryResponse))
    ensures
        r.0.admin == (match msg.admin {
            Some(a) => a,
            None => sender,
        }),
        r.0.code_ids == msg.code_ids,
        r.1.messages@.len() == 0,
        r.1.attributes@.len() == 2,
        attr_is(r.1.attributes@[0], "method"@, "instantiate"@),
        attr_is(r.1.attributes@[1], "admin"@, r.0.admin@),
{
    let admin = match msg.admin {
        Some(admin) => admin,
        None => sender,
    };
    let config = Config { admin, code_ids: msg.code_ids };
    let mut resp = Response::new();
    resp.attributes.push(attr("method", "instantiate".to_owned()));
    resp.attributes.push(attr("admin", config.admin.clone()));
    (config, resp)
}

/// Starts the creation of a campaign by `sender`.  A creator who already
/// has a campaign among the stored `campaigns` is refused.  On success the
/// sender is to be kept as the pending creator until the campaign's
/// instantiation replies.
pub fn execute_create_campaign(
    config: &Config,
    campaigns: &Vec<(String, String)>,
    sender: String,
    contract_address: String,
    name: String,
    expiration: u64,
    goal: Coin,
    recipient: String,
) -> (r: Result<(String, FactoryResponse), ContractError>)
    ensures
        has_campaign(campaigns@, sender@) <==> r == Err::<(String, FactoryResponse), ContractError>(
            ContractError::TooManyCampaign,
        ),
        !has_campaign(campaigns@, sender@) ==> r is Ok,
        r matches Ok((pending, resp)) ==> {
            &&& pending == sender
            &&& resp.attributes@.len() == 2
            &&& attr_is(resp.attributes@[0], "method"@, "create_campaign"@)
            &&& attr_is(resp.attributes@[1], "creator"@, sender@)
            &&& resp.messages@.len() == 1
            &&& resp.messages@[0] matches FactoryMsg::InstantiateCampaign {
                admin,
                code_id,
                msg,
                label,
                reply_id,
            } && admin == contract_address && code_id == config.code_ids.campaign && msg
                == (InstantiateCampaignMsg { name, expiration, goal, recipient }) && label@
                == "create campaign"@ && reply_id == CREATE_CAMPAIGN_REPLY_ID
        },
{
    if campaign_of(campaigns, &sender).is_some() {
        return Err(ContractError::TooManyCampaign);
    }
    let mut resp = Response::new();
    resp.attributes.push(attr("method", "create_campaign".to_owned()));
    resp.attributes.push(attr("creator", sender.clone()));
    resp.messages.push(
        FactoryMsg::InstantiateCampaign {
            admin: contract_address,
            code_id: config.code_ids.campaign,
            msg: InstantiateCampaignMsg { name, expiration, goal, recipient },
            label: "create campaign".to_owned(),
            reply_id: CREATE_CAMPAIGN_REPLY_ID,
        },
    );
    Ok((sender, resp))
}

/// Updates the configuration; only the admin may.  `admin`, when a new
/// admin is proposed, is the chain's verdict on that address.
pub fn execute_update_config(
    config: Config,
    sender: &String,
    admin: Option<Result<String, cosmwasm_std::StdError>>,
    code_ids: CodeIds,
) -> (r: Result<(Config, FactoryResponse), ContractError>)
    ensures
        sender@ != config.admin@ ==> r == Err::<(Config, FactoryResponse), ContractError>(
            ContractError::Unauthorized,
        ),
        sender@ == config.admin@ && admin is Some && admin->Some_0 is Err ==> r == Err::<
            (Config, FactoryResponse),
            ContractError,
        >(ContractError::Std(admin->Some_0->Err_0)),
        r is Ok <==> (sender@ == config.admin@ && !(admin matches Some(Err(_)))),
        r matches Ok((c, resp)) ==> {
            &&& c.admin == (match admin {
                Some(Ok(a)) => a,
                _ => config.admin,
            })
            &&& c.code_ids == code_ids
            &&& resp.messages@.len() == 0
            &&& resp.attributes@.len() == 1
            &&& attr_is(resp.attributes@[0], "method"@, "update_config"@)
        },
{
    let mut config = config;
    if *sender != config.admin {
        return Err(ContractError::Unauthorized);
    }
    match admin {
        Some(Err(e)) => return Err(ContractError::Std(e)),
        Some(Ok(valid)) => {
            config.admin = valid;
        },
        None => {},
    }
    config.code_ids = code_ids;
    let mut resp = Response::new();
    resp.attributes.push(attr("method", "update_config".to_owned()));
    Ok((config, resp))
}

/// How many campaigns a listing returns.
pub open spec fn page_size(limit: Option<u32>) -> int {
    let l = match limit {
        Some(l) => l,
        None => DEFAULT_LIMIT,
    };
    if l < MAX_LIMIT {
        l as int
    } else {
        MAX_LIMIT as int
    }
}

/// The stored campaigns, as the storage map walks them: by strictly
/// ascending creator, so no creator appears twice.
pub open spec fn campaigns_in_order(campaigns: Seq<(String, String)>) -> bool {
    forall|i: int, j: int|
        0 <= i < j < campaigns.len() ==> key_before(#[trigger] campaigns[i].0@, #[trigger] campaigns[j].0@)
}

/// The campaigns a listing starting after `start_after` considers: those
/// whose creator comes strictly after it, or all of them.
pub open spec fn listed_after(start_after: Option<String>) -> spec_fn((String, String)) -> bool {
    |e: (String, String)|
        match start_after {
            Some(k) => key_before(k@, e.0@),
            None => true,
        }
}

/// At most the first `n` items of `s`.
pub open spec fn first_n<A>(s: Seq<A>, n: int) -> Seq<A> {
    if s.len() <= n {
        s
    } else {
        s.take(n)
    }
}

/// Lists campaigns: of the stored campaigns (every creator and campaign
/// address, by ascending creator), those whose creator comes after
/// `start_after` when it is given, at most the limit given or 10, and never
/// more than 30.
pub fn query_campaigns(
    campaigns: Vec<(String, String)>,
    start_after: Option<String>,
    limit: Option<u32>,
) -> (r: CampaignsResponse)
    requires
        campaigns_in_order(campaigns@),
    ensures
        r.campaigns@ == first_n(campaigns@.filter(listed_after(start_after)), page_size(limit)),
        r.campaigns@.len() <= 30,
        limit is None ==> r.campaigns@.len() <= 10,
        limit matches Some(l) ==> r.campaigns@.len() <= l,
        limit matches Some(l) ==> (l <= 30 && campaigns@.filter(listed_after(start_after)).len()
            >= l ==> r.campaigns@.len() == l),
{
    let l = match limit {
        Some(l) => l,
        None => DEFAULT_LIMIT,
    };
    let l = if l < MAX_LIMIT {
        l
    } else {
        MAX_LIMIT
    };
    let n: usize = l as usize;
    let ghost pred = listed_after(start_after);
    let mut page: Vec<(String, String)> = Vec::new();
    let mut i: usize = 0;
    proof {
        reveal(Seq::filter);
        assert(campaigns@.take(0) =~= Seq::<(String, String)>::empty());
    }
    while i < campaigns.len()
        invariant
            i <= campaigns@.len(),
            n == page_size(limit),
            pred == listed_after(start_after),
            page@.len() <= n,
            page@ == first_n(campaigns@.take(i as int).filter(pred), n as int),
        decreases campaigns@.len() - i,
    {
        let keep = match &start_after {
            Some(k) => key_comes_before(k.as_str(), campaigns[i].0.as_str()),
            None => true,
        };
        let ghost before = campaigns@.take(i as int).filter(pred);
        proof {
            reveal(Seq::filter);
            assert(campaigns@.take(i + 1).drop_last() =~= campaigns@.take(i as int));
            assert(campaigns@.take(i + 1).last() == campaigns@[i as int]);
            assert(keep == pred(campaigns@[i as int]));
        }
        if keep && page.len() < n {
            let entry = (campaigns[i].0.clone(), campaigns[i].1.clone());
            page.push(entry);
        }
        proof {
            if keep && before.len() >= n {
                assert(before.push(campaigns@[i as int]).take(n as int) =~= before.take(n as int));
            }
        }
        i = i + 1;
    }
    proof {
        assert(campaigns@.take(campaigns@.len() as int) =~= campaigns@);
        lemma_page_size_is_the_limit(limit);
    }
    CampaignsResponse { campaigns: page }
}

/// `creator` has a campaign among `campaigns`.
pub open spec fn has_campaign(campaigns: Seq<(String, String)>, creator: Seq<char>) -> bool {
    exists|i: int| 0 <= i < campaigns.len() && #[trigger] campaigns[i].0@ == creator
}

/// The address of `creator`'s campaign, when it has one.
pub fn campaign_of(campaigns: &Vec<(String, String)>, creator: &String) -> (r: Option<String>)
    ensures
        r is Some <==> has_campaign(campaigns@, creator@),
        r matches Some(a) ==> exists|i: int|
            0 <= i < campaigns@.len() && #[trigger] campaigns@[i].0@ == creator@ && campaigns@[i].1
                == a,
{
    let mut i: usize = 0;
    while i < campaigns.len()
        invariant
            i <= campaigns@.len(),
            forall|k: int| 0 <= k < i ==> #[trigger] campaigns@[k].0@ != creator@,
        decreases campaigns@.len() - i,
    {
        if campaigns[i].0 == *creator {
            return Some(campaigns[i].1.clone());
        }
        i = i + 1;
    }
    None
}

/// `after` is `before` with `creator`'s campaign recorded at `address`: the
/// entry is stored, replacing any earlier one of the same creator, and every
/// other entry is kept.
pub open spec fn records(
    before: Seq<(String, String)>,
    creator: String,
    address: String,
    after: Seq<(String, String)>,
) -> bool {
    forall|e: (String, String)|
        #[trigger] after.contains(e) <==> (e == (creator, address) || (before.contains(e) && e.0@
            != creator@))
}

/// Records `creator`'s campaign at `address`, keeping the campaigns in order.
pub fn record_campaign(campaigns: Vec<(String, String)>, creator: String, address: String) -> (r: Vec<
    (String, String),
>)
    requires
        campaigns_in_order(campaigns@),
    ensures
        campaigns_in_order(r@),
        records(campaigns@, creator, address, r@),
{
    let mut campaigns = campaigns;
    let mut p: usize = 0;
    while p < campaigns.len()
        invariant
            p <= campaigns@.len(),
            forall|k: int| 0 <= k < p ==> key_before(#[trigger] campaigns@[k].0@, creator@),
        ensures
            p <= campaigns@.len(),
            forall|k: int| 0 <= k < p ==> key_before(#[trigger] campaigns@[k].0@, creator@),
            p < campaigns@.len() ==> !key_before(campaigns@[p as int].0@, creator@),
        decreases campaigns@.len() - p,
    {
        if !key_comes_before(campaigns[p].0.as_str(), creator.as_str()) {
            break;
        }
        p = p + 1;
    }
    let ghost old_campaigns = campaigns@;
    if p < campaigns.len() && campaigns[p].0 == creator {
        campaigns.set(p, (creator, address));
        proof {
            lemma_record_in_place(old_campaigns, p as int, campaigns@);
        }
    } else {
        campaigns.insert(p, (creator, address));
        proof {
            lemma_record_inserted(old_campaigns, p as int, campaigns@);
        }
    }
    campaigns
}

/// Replacing the entry of a creator keeps the order and records the campaign.
proof fn lemma_record_in_place(before: Seq<(String, String)>, p: int, after: Seq<(String, String)>)
    requires
        campaigns_in_order(before),
        0 <= p < before.len(),
        after.len() == before.len(),
        after[p].0@ == before[p].0@,
        forall|k: int| 0 <= k < before.len() && k != p ==> #[trigger] after[k] == before[k],
    ensures
        campaigns_in_order(after),
        records(before, after[p].0, after[p].1, after),
{
    let (creator, address) = (after[p].0, after[p].1);
    assert(after[p] == (creator, address));
    assert forall|i: int, j: int| 0 <= i < j < after.len() implies key_before(
        #[trigger] after[i].0@,
        #[trigger] after[j].0@,
    ) by {
        assert(key_before(before[i].0@, before[j].0@));
    }
    assert forall|e: (String, String)| #[trigger] after.contains(e) <==> (e == (creator, address) || (
    before.contains(e) && e.0@ != creator@)) by {
        if after.contains(e) && e != (creator, address) {
            let k = choose|k: int| 0 <= k < after.len() && after[k] == e;
            assert(k != p);
            assert(after[k] == before[k]);
            if k < p {
                assert(key_before(before[k].0@, before[p].0@));
            } else {
                assert(key_before(before[p].0@, before[k].0@));
            }
            lemma_key_irreflexive(creator@);
            assert(before.contains(e));
        }
        if e == (creator, address) {
            assert(after[p] == e);
        }
        if before.contains(e) && e.0@ != creator@ {
            let k = choose|k: int| 0 <= k < before.len() && before[k] == e;
            assert(k != p);
            assert(after[k] == e);
        }
    }
}

/// Inserting a new creator where it belongs keeps the order and records the
/// campaign.
proof fn lemma_record_inserted(before: Seq<(String, String)>, p: int, after: Seq<(String, String)>)
    requires
        campaigns_in_order(before),
        0 <= p <= before.len(),
        after == before.insert(p, after[p]),
        forall|k: int| 0 <= k < p ==> key_before(#[trigger] before[k].0@, after[p].0@),
        p < before.len() ==> !key_before(before[p].0@, after[p].0@) && before[p].0@ != after[p].0@,
    ensures
        campaigns_in_order(after),
        records(before, after[p].0, after[p].1, after),
{
    let (creator, address) = (after[p].0, after[p].1);
    if p < before.len() {
        lemma_key_total(before[p].0@, creator@);
    }
    assert forall|k: int| p <= k < before.len() implies key_before(creator@, #[trigger] before[k].0@) by {
        if k > p {
            assert(key_before(before[p].0@, before[k].0@));
            lemma_key_transitive(creator@, before[p].0@, before[k].0@);
        }
    }
    assert forall|i: int, j: int| 0 <= i < j < after.len() implies key_before(
        #[trigger] after[i].0@,
        #[trigger] after[j].0@,
    ) by {
        if j < p {
            assert(key_before(before[i].0@, before[j].0@));
        } else if j == p {
            assert(key_before(before[i].0@, creator@));
        } else if i < p {
            assert(key_before(before[i].0@, creator@));
            assert(key_before(creator@, before[j - 1].0@));
            lemma_key_transitive(before[i].0@, creator@, before[j - 1].0@);
        } else if i == p {
            assert(key_before(creator@, before[j - 1].0@));
        } else {
            assert(key_before(before[i - 1].0@, before[j - 1].0@));
        }
    }
    assert forall|e: (String, String)| #[trigger] after.contains(e) <==> (e == (creator, address) || (
    before.contains(e) && e.0@ != creator@)) by {
        if after.contains(e) && e != (creator, address) {
            let k = choose|k: int| 0 <= k < after.len() && after[k] == e;
            assert(k != p);
            let m = if k < p { k } else { k - 1 };
            assert(before[m] == e);
            if m < p {
                assert(key_before(before[m].0@, creator@));
            } else {
                assert(key_before(creator@, before[m].0@));
            }
            lemma_key_irreflexive(creator@);
            assert(before.contains(e));
        }
        if e == (creator, address) {
            assert(after[p] == e);
        }
        if before.contains(e) && e.0@ != creator@ {
            let k = choose|k: int| 0 <= k < before.len() && before[k] == e;
            if k < p {
                assert(after[k] == e);
            } else {
                assert(after[k + 1] == e);
            }
        }
    }
}

/// Law: at most one campaign per creator.  Once a creation reply has been
/// recorded for `creator` (`record_campaign`), the creator has a campaign,
/// so `execute_create_campaign` refuses any further one from them.
pub proof fn lemma_one_campaign_per_creator(
    before: Seq<(String, String)>,
    creator: String,
    address: String,
    after: Seq<(String, String)>,
)
    requires
        records(before, creator, address, after),
    ensures
        has_campaign(after, creator@),
{
    assert(after.contains((creator, address)));
    let k = choose|k: int| 0 <= k < after.len() && after[k] == (creator, address);
    assert(after[k].0@ == creator@);
}

/// Records the campaign that was just instantiated: the pending creator
/// (`pending_creator`, as loaded) becomes the key of the campaign's address,
/// and the pending creator is to be cleared.
pub fn handle_campaign_creation_reply(
    pending_creator: Result<String, cosmwasm_std::StdError>,
    contract_address: String,
) -> (r: Result<((String, String), FactoryResponse), ContractError>)
    ensures
        pending_creator is Err ==> r == Err::<((String, String), FactoryResponse), ContractError>(
            ContractError::Std(pending_creator->Err_0),
        ),
        r matches Ok((entry, resp)) ==> {
            &&& pending_creator is Ok
            &&& entry == (pending_creator->Ok_0, contract_address)
            &&& resp.messages@.len() == 0
            &&& resp.attributes@.len() == 2
            &&& attr_is(resp.attributes@[0], "action"@, "instantiated by factory"@)
            &&& attr_is(resp.attributes@[1], "campaign_addr"@, contract_address@)
        },
        pending_creator is Ok ==> r is Ok,
{
    let creator = match pending_creator {
        Err(e) => return Err(ContractError::Std(e)),
        Ok(c) => c,
    };
    let mut resp = Response::new();
    resp.attributes.push(attr("action", "instantiated by factory".to_owned()));
    resp.attributes.push(attr("campaign_addr", contract_address.clone()));
    Ok(((creator, contract_address), resp))
}

/// Records the payroll factory whose instantiation just replied: its
/// address, read from the reply.  `None` when the reply does not decode,
/// where the factory gives up.
pub fn handle_payroll_factory_init_reply(msg: Reply) -> (r: Option<(String, FactoryResponse)>)
    ensures
        r is None <==> !reply_decodes(msg.result),
        r matches Some((a, resp)) ==> {
            &&& a@ == reply_address(msg.result)
            &&& resp.messages@.len() == 0
            &&& resp.attributes@.len() == 2
            &&& attr_is(resp.attributes@[0], "method"@, "instantiate payroll factory"@)
            &&& attr_is(resp.attributes@[1], "address"@, a@)
        },
{
    let address = match parse_reply_instantiate_data(&msg) {
        Ok(res) => res.contract_address,
        Err(_) => return None,
    };
    let mut resp = Response::new();
    resp.attributes.push(attr("method", "instantiate payroll factory".to_owned()));
    resp.attributes.push(attr("address", address.clone()));
    Some((address, resp))
}

/// Handles the reply of a submessage: only the campaign creation is
/// expected.  `None` when its reply does not decode, where the factory
/// gives up; otherwise the campaign's address is recorded for the pending
/// creator.
pub fn reply(
    pending_creator: Result<String, cosmwasm_std::StdError>,
    msg: Reply,
) -> (r: Option<Result<((String, String), FactoryResponse), ContractError>>)
    ensures
        msg.id != CREATE_CAMPAIGN_REPLY_ID ==> r == Some(
            Err::<((String, String), FactoryResponse), ContractError>(ContractError::UnknownReplyID),
        ),
        msg.id == CREATE_CAMPAIGN_REPLY_ID ==> (r is None <==> !reply_decodes(msg.result)),
        msg.id == CREATE_CAMPAIGN_REPLY_ID && reply_decodes(msg.result) && pending_creator is Err
            ==> r == Some(
            Err::<((String, String), FactoryResponse), ContractError>(
                ContractError::Std(pending_creator->Err_0),
            ),
        ),
        msg.id == CREATE_CAMPAIGN_REPLY_ID && reply_decodes(msg.result) && pending_creator is Ok
            ==> (r matches Some(Ok((entry, resp))) && {
            &&& entry.0 == pending_creator->Ok_0
            &&& entry.1@ == reply_address(msg.result)
            &&& resp.messages@.len() == 0
            &&& resp.attributes@.len() == 2
            &&& attr_is(resp.attributes@[0], "action"@, "instantiated by factory"@)
            &&& attr_is(resp.attributes@[1], "campaign_addr"@, reply_address(msg.result))
        }),
{
    if msg.id != CREATE_CAMPAIGN_REPLY_ID {
        return Some(Err(ContractError::UnknownReplyID));
    }
    match parse_reply_instantiate_data(&msg) {
        Ok(res) => Some(handle_campaign_creation_reply(pending_creator, res.contract_address)),
        Err(_) => None,
    }
}

/// Law: a listing's page holds the limit given, 10 when none is given,
/// and never more than 30.
pub proof fn lemma_page_size_is_the_limit(limit: Option<u32>)
    ensures
        page_size(limit) <= 30,
        limit is None ==> page_size(limit) == 10,
        limit matches Some(l) ==> page_size(limit) <= l,
        limit matches Some(l) ==> (l <= 30 ==> page_size(limit) == l),
{
}

/// Law: the stored campaigns give a campaign exactly to the creators they
/// hold an entry for: nobody has one among no campaigns, and adding an
/// entry gives one to its creator and to nobody else.
pub proof fn lemma_campaign_holders(
    campaigns: Seq<(String, String)>,
    entry: (String, String),
    creator: Seq<char>,
)
    ensures
        !has_campaign(Seq::<(String, String)>::empty(), creator),
        has_campaign(campaigns.push(entry), creator) <==> (has_campaign(campaigns, creator)
            || entry.0@ == creator),
{
    let pushed = campaigns.push(entry);
    if has_campaign(pushed, creator) {
        let i = choose|i: int| 0 <= i < pushed.len() && #[trigger] pushed[i].0@ == creator;
        if i < campaigns.len() {
            assert(campaigns[i].0@ == creator);
        }
    }
    if has_campaign(campaigns, creator) {
        let i = choose|i: int| 0 <= i < campaigns.len() && #[trigger] campaigns[i].0@ == creator;
        assert(pushed[i].0@ == creator);
    }
    if entry.0@ == creator {
        assert(pushed[campaigns.len() as int].0@ == creator);
    }
}

} // verus!
