//! The parameters of one run of the agent.

use crate::felt::FieldElement;
use vstd::prelude::*;

verus! {

/// What the agent is started with. It is built once and not changed.
#[derive(Clone, Debug, PartialEq, Eq)]
pub struct TriggerConfig {
    /// Where the notifications are streamed from.
    pub stream_endpoint: String,
    /// Where the ledger's RPC interface is reached.
    pub provider_endpoint: String,
    /// The contract that holds the payments.
    pub contract_address: FieldElement,
    /// The account that signs and pays for the transaction.
    pub paymaster_address: FieldElement,
    /// The signing key of that account.
    pub paymaster_key: FieldElement,
}

} // verus!
