use crowdfund::common::Attribute;
use crowdfund::counter::{
    execute, instantiate, query, ExecuteMsg, ExecuteResponse, InstantiateMsg, QueryMsg,
    QueryResponse, ZERO_CODE,
};

#[test]
fn test_instantiate() {
    let msg = InstantiateMsg {};
    let (_state, resp) = instantiate(msg);

    assert_eq!(
        resp.attributes,
        vec![Attribute { key: "counter".to_string(), value: ZERO_CODE.to_string() }]
    )
}

#[test]
fn test_execute() {
    let expect_data = ExecuteResponse { counter: 1 };
    let expect_number = 2;

    // instantiate msg
    let msg = InstantiateMsg {};
    let (state, _resp) = instantiate(msg);

    // execute one time
    let msg = ExecuteMsg::Update;
    let (state, resp) = execute(state, msg);
    println!("Execute once!");
    assert_eq!(resp.data, Some(expect_data));

    // execute two time
    let msg = ExecuteMsg::Update;
    let (current_state, _resp) = execute(state, msg);
    println!("Execute twice!");
    assert_eq!(current_state.counter, expect_number);
}

#[test]
fn test_query() {
    let expect_data_0 = QueryResponse { counter: 0 };
    let expect_data_1 = QueryResponse { counter: 1 };

    let msg = InstantiateMsg {};
    let (state, _resp) = instantiate(msg);

    // query one time.
    let msg = QueryMsg::Counter;
    let resp = query(state, msg);
    assert_eq!(resp, expect_data_0);

    // query two time
    let msg = ExecuteMsg::Update;
    let (state, _resp) = execute(state, msg);
    let msg = QueryMsg::Counter;
    let resp = query(state, msg);
    assert_eq!(resp, expect_data_1);
}

#[test]
fn counter_reports_zero_as_text() {
    let (state, resp) = instantiate(InstantiateMsg {});
    assert_eq!(state.counter, 0);
    assert_eq!(resp.attributes[0].value, "0");
    assert_eq!(resp.data, None);
}

#[test]
fn counter_counts_many_updates() {
    let (mut state, _) = instantiate(InstantiateMsg {});
    for _ in 0..10 {
        state = execute(state, ExecuteMsg::Update).0;
    }
    assert_eq!(query(state, QueryMsg::Counter), QueryResponse { counter: 10 });
}
