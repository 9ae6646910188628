//! A counter contract: instantiated at zero, raised by one on every update,
//! and answered on query.
use vstd::prelude::*;
use vstd::string::to_string_from_display_ensures;

use crate::common::{attr, Attribute};

verus! {

/// The code the counter starts from, as reported on instantiation.
pub const ZERO_CODE: i32 = 0;

/// The stored state.
#[derive(Clone, Copy, Debug, PartialEq, Eq, Structural)]
pub struct State {
    pub counter: u64,
}

#[derive(Clone, Copy, Debug, PartialEq, Eq, Structural)]
pub struct InstantiateMsg {}

#[derive(Clone, Copy, Debug, PartialEq, Eq, Structural)]
pub enum ExecuteMsg {
    Update,
}

#[derive(Clone, Copy, Debug, PartialEq, Eq, Structural)]
pub enum QueryMsg {
    Counter,
}

/// The data an update returns.
#[derive(Clone, Copy, Debug, PartialEq, Eq, Structural)]
pub struct ExecuteResponse {
    pub counter: u64,
}

/// The answer to a query.
#[derive(Clone, Copy, Debug, PartialEq, Eq, Structural)]
pub struct QueryResponse {
    pub counter: u64,
}

/// What the counter hands back: its event's attributes, and its data.
#[derive(Clone, Debug, PartialEq, Eq)]
pub struct CounterResponse {
    pub attributes: Vec<Attribute>,
    pub data: Option<ExecuteResponse>,
}

/// A new counter, at zero; the event reports `ZERO_CODE` as `counter`.
pub fn instantiate(_msg: InstantiateMsg) -> (r: (State, CounterResponse))
    ensures
        r.0.counter == 0,
        r.1.data is None,
        r.1.attributes@.len() == 1,
        r.1.attributes@[0].key@ == "counter"@,
        exists|text: String|
            to_string_from_display_ensures::<i32>(&ZERO_CODE, text) && text@
                == r.1.attributes@[0].value@,
{
    let mut attributes = Vec::new();
    attributes.push(attr("counter", ZERO_CODE.to_string()));
    (State { counter: 0 }, CounterResponse { attributes, data: None })
}

/// Raises the counter by one and returns its new value as data.
pub fn try_update_counter(state: State) -> (r: (State, CounterResponse))
    requires
        state.counter < u64::MAX,
    ensures
        r.0.counter == state.counter + 1,
        r.1.attributes@.len() == 0,
        r.1.data == Some(ExecuteResponse { counter: r.0.counter }),
{
    let current_counter = state.counter + 1;
    let new_state = State { counter: current_counter };
    (new_state, CounterResponse { attributes: Vec::new(), data: Some(ExecuteResponse { counter: current_counter }) })
}

/// Reports the counter.
pub fn query_counter(state: State) -> (r: QueryResponse)
    ensures
        r.counter == state.counter,
{
    QueryResponse { counter: state.counter }
}

/// Executes a message.
pub fn execute(state: State, msg: ExecuteMsg) -> (r: (State, CounterResponse))
    requires
        state.counter < u64::MAX,
    ensures
        r.0.counter == state.counter + 1,
        r.1.data == Some(ExecuteResponse { counter: r.0.counter }),
{
    match msg {
        ExecuteMsg::Update => try_update_counter(state),
    }
}

/// Answers a query.
pub fn query(state: State, msg: QueryMsg) -> (r: QueryResponse)
    ensures
        r.counter == state.counter,
{
    match msg {
        QueryMsg::Counter => query_counter(state),
    }
}

/// Law: the counter counts the updates.  Along any run that starts from a
/// fresh counter and applies updates one after the other (each raising the
/// stored counter by one, as `try_update_counter` ensures), a query after
/// `n` updates reports `n`.
pub proof fn lemma_counter_counts_updates(states: Seq<State>)
    requires
        states.len() > 0,
        states[0].counter == 0,
        forall|i: int| 0 <= i < states.len() - 1 ==> #[trigger] states[i + 1].counter == states[i].counter + 1,
    ensures
        forall|i: int| 0 <= i < states.len() ==> #[trigger] states[i].counter == i,
    decreases states.len(),
{
    if states.len() > 1 {
        let prefix = states.drop_last();
        assert forall|i: int| 0 <= i < prefix.len() - 1 implies #[trigger] prefix[i + 1].counter == prefix[i].counter + 1 by {
            assert(prefix[i + 1] == states[i + 1]);
            assert(states[i + 1].counter == states[i].counter + 1);
        }
        lemma_counter_counts_updates(prefix);
        assert forall|i: int| 0 <= i < states.len() implies #[trigger] states[i].counter == i by {
            if i < states.len() - 1 {
                assert(prefix[i] == states[i]);
            } else {
                assert(prefix[i - 1] == states[i - 1]);
                let j = i - 1;
                assert(states[j + 1].counter == states[j].counter + 1);
            }
        }
    }
}

} // verus!
