//! Verified core of a small suite of CosmWasm contracts for decentralised
//! fund raising: a campaign factory, the campaign itself, the receipt NFT that
//! every donor holds, vesting parameters, and two boiler-plate contracts.
//!
//! Every contract is written here as pure transition functions: they take the
//! stored state and what the chain reported (block, sender, funds, query
//! answers) and return the new state and the response to emit.  Loading and
//! saving state and talking to other contracts is left to the entry points
//! that wrap these functions.
pub mod common;

pub mod curve;

pub mod vesting;
pub mod receipt;
pub mod factory;
pub mod keys;
pub mod campaign;
pub mod counter;
pub mod deposit;
pub mod dummy;
pub mod payroll;
