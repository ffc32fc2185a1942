//! The execution submitter: the one transaction that executes the payments.
//!
//! This module says what is submitted; the caller resolves the chain, signs
//! and broadcasts.

use crate::call::{bare_call, call_without_arguments, CallView, ContractCall};
use crate::config::TriggerConfig;
use crate::felt::FieldElement;
use vstd::pervasive::unreached;
use vstd::prelude::*;

verus! {

/// The version of the invoke transaction that is submitted.
pub const INVOKE_VERSION: u8 = 3;

/// How an account encodes the calls of one transaction.
#[derive(Clone, Copy, Debug, PartialEq, Eq, Structural)]
pub enum ExecutionEncoding {
    /// The encoding of accounts written for Cairo 0.
    Legacy,
    /// The encoding of accounts written for Cairo 1 and later.
    New,
}

/// All that goes into the transaction.
#[derive(Clone, Debug, PartialEq, Eq)]
pub struct Invocation {
    /// The account that sends the transaction.
    pub sender: FieldElement,
    /// The key that signs it.
    pub signing_key: FieldElement,
    /// The chain it is signed for.
    pub chain_id: FieldElement,
    /// How the account encodes its calls.
    pub encoding: ExecutionEncoding,
    /// The version of the invoke transaction.
    pub version: u8,
    /// The calls that the transaction makes.
    pub calls: Vec<ContractCall>,
}

/// The name of the entry point that executes the payments.
pub open spec fn execute_entry_point() -> Seq<char> {
    "execute_payments"@
}

/// The call that executes the payments of `contract`.
pub open spec fn payment_call(contract: FieldElement) -> CallView {
    bare_call(contract, execute_entry_point())
}

/// Whether `invocation` is the transaction that executes the payments of
/// `config` on the chain `chain_id`: sent by the paymaster, signed with its
/// key, and made of the one call.
pub open spec fn is_payment_invocation(
    invocation: Invocation,
    config: TriggerConfig,
    chain_id: FieldElement,
) -> bool {
    &&& invocation.sender == config.paymaster_address
    &&& invocation.signing_key == config.paymaster_key
    &&& invocation.chain_id == chain_id
    &&& invocation.encoding == ExecutionEncoding::New
    &&& invocation.version == INVOKE_VERSION
    &&& invocation.calls@.len() == 1
    &&& invocation.calls@[0]@ == payment_call(config.contract_address)
}

/// Builds the call that executes the payments of `contract`: the entry point
/// `execute_payments`, without arguments.
pub fn execute_call(contract: FieldElement) -> (r: ContractCall)
    ensures
        r@ == payment_call(contract),
{
    proof {
        reveal_strlit("execute_payments");
    }
    match call_without_arguments(contract, "execute_payments") {
        Some(call) => call,
        None => unreached(),
    }
}

/// Builds the transaction that executes the payments of `config` on the
/// chain `chain_id`.
pub fn payment_invocation(config: &TriggerConfig, chain_id: FieldElement) -> (r: Invocation)
    ensures
        is_payment_invocation(r, *config, chain_id),
{
    let mut calls: Vec<ContractCall> = Vec::new();
    calls.push(execute_call(config.contract_address));
    Invocation {
        sender: config.paymaster_address,
        signing_key: config.paymaster_key,
        chain_id,
        encoding: ExecutionEncoding::New,
        version: INVOKE_VERSION,
        calls,
    }
}

} // verus!
