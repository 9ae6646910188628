//! The boiler-plate contracts: an owner is stored and reported; the
//! execute message loads the configuration and does nothing else.
use vstd::prelude::*;

use crate::common::Response;

verus! {

/// The stored configuration.
#[derive(Clone, Debug, PartialEq, Eq)]
pub struct DummyConfig {
    pub owner: String,
}

/// The answer to the query.
#[derive(Clone, Debug, PartialEq, Eq)]
pub struct DummyResponse {
    pub owner: String,
}

#[derive(Clone, Debug, PartialEq, Eq)]
pub struct InstantiateMsg {
    pub owner: Option<String>,
}

#[derive(Clone, Debug, PartialEq, Eq)]
pub enum ExecuteMsg {
    DummyExecute { param1: String, param2: String },
}

#[derive(Clone, Copy, Debug, PartialEq, Eq, Structural)]
pub enum QueryMsg {
    DummyQuery,
}

/// Why an operation failed.
#[derive(Debug, PartialEq)]
pub enum ContractError {
    Std(cosmwasm_std::StdError),
}

pub type DummyContractResponse = Response<()>;

/// Reports the stored owner.
pub fn query_config(config: DummyConfig) -> (r: DummyResponse)
    ensures
        r.owner == config.owner,
{
    DummyResponse { owner: config.owner }
}

/// Answers a query.
pub fn query(config: DummyConfig, msg: QueryMsg) -> (r: DummyResponse)
    ensures
        r.owner == config.owner,
{
    match msg {
        QueryMsg::DummyQuery => query_config(config),
    }
}

/// Instantiation stores nothing but the contract's version.
pub fn instantiate(_msg: InstantiateMsg) -> (r: DummyContractResponse)
    ensures
        r.is_empty(),
{
    Response::new()
}

/// The execute message needs the configuration (`config`, as loaded) and
/// does nothing with its parameters.
pub fn execute_dummy(
    config: Result<DummyConfig, cosmwasm_std::StdError>,
    _param1: String,
    _param2: String,
) -> (r: Result<DummyContractResponse, ContractError>)
    ensures
        config is Err ==> r == Err::<DummyContractResponse, ContractError>(
            ContractError::Std(config->Err_0),
        ),
        config is Ok ==> (r matches Ok(resp) && resp.is_empty()),
{
    match config {
        Err(e) => Err(ContractError::Std(e)),
        Ok(_config) => Ok(Response::new()),
    }
}

/// Executes a message.
pub fn execute(
    config: Result<DummyConfig, cosmwasm_std::StdError>,
    msg: ExecuteMsg,
) -> (r: Result<DummyContractResponse, ContractError>)
    ensures
        config is Err ==> r == Err::<DummyContractResponse, ContractError>(
            ContractError::Std(config->Err_0),
        ),
        config is Ok ==> (r matches Ok(resp) && resp.is_empty()),
{
    match msg {
        ExecuteMsg::DummyExecute { param1, param2 } => execute_dummy(config, param1, param2),
    }
}

/// Migration changes nothing.
pub fn migrate() -> (r: DummyContractResponse)
    ensures
        r.is_empty(),
{
    Response::new()
}

} // verus!
