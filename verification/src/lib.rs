//! Trigger agent for batch payments on Starknet: the decisions of the
//! subscription and dispatch loop, as a verified state machine.
//!
//! The agent listens to a stream of block notifications. For each one it asks
//! a contract whether payments are due and, if so, submits one transaction
//! that executes them. This crate holds every decision of that loop; the code
//! that drives it performs the waits and the remote calls.

pub mod call;
pub mod check_execution;
pub mod config;
pub mod execute_payments;
pub mod felt;
pub mod fetcher;
pub mod frame;
pub mod json;
pub mod trace;
