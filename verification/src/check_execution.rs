//! The precondition oracle: whether a batch of payments is due.
//!
//! The oracle is one read of the contract at the latest block. This module
//! says what is asked and how the answer is read; the caller makes the call.

use crate::call::{bare_call, call_without_arguments, CallView, ContractCall};
use crate::felt::FieldElement;
use vstd::pervasive::unreached;
use vstd::prelude::*;

verus! {

/// The block whose state a read is evaluated on.
#[derive(Clone, Copy, Debug, PartialEq, Eq, Structural)]
pub enum BlockTag {
    /// The latest block accepted on the settlement layer.
    L1Accepted,
    /// The latest block.
    Latest,
    /// The block that is being built.
    PreConfirmed,
}

/// A read-only call and the block it is evaluated on.
#[derive(Clone, Debug, PartialEq, Eq)]
pub struct ReadRequest {
    pub call: ContractCall,
    pub block: BlockTag,
}

/// The name of the entry point that tells whether payments are due.
pub open spec fn check_entry_point() -> Seq<char> {
    "check_payments_for_execution"@
}

/// The call that the oracle makes on `contract`.
pub open spec fn precondition_call(contract: FieldElement) -> CallView {
    bare_call(contract, check_entry_point())
}

/// Whether an answer of the contract says that payments are due: its first
/// value is one.
pub open spec fn answer_holds(answer: Seq<FieldElement>) -> bool {
    answer.len() > 0 && answer[0]@ == 1
}

/// The oracle's request for `contract`: the entry point
/// `check_payments_for_execution`, without arguments, at the latest block.
pub fn precondition_request(contract: FieldElement) -> (r: ReadRequest)
    ensures
        r.call@ == precondition_call(contract),
        r.block == BlockTag::Latest,
{
    proof {
        reveal_strlit("check_payments_for_execution");
    }
    match call_without_arguments(contract, "check_payments_for_execution") {
        Some(call) => ReadRequest { call, block: BlockTag::Latest },
        None => unreached(),
    }
}

/// Reads the contract's answer: payments are due where its first value is
/// one, and not due on any other value.
pub fn precondition_holds(answer: &Vec<FieldElement>) -> (r: bool)
    requires
        answer@.len() > 0,
    ensures
        r == answer_holds(answer@),
{
    answer[0].is_one()
}

/// The integers that an answer holds.
pub open spec fn answer_values(answer: Seq<FieldElement>) -> Seq<nat> {
    answer.map_values(|value: FieldElement| value@)
}

/// Asking twice while the ledger does not change gives the same verdict
/// twice: two answers that hold the same integers are read alike.
pub proof fn lemma_verdict_is_stable(first: Seq<FieldElement>, second: Seq<FieldElement>)
    requires
        answer_values(first) == answer_values(second),
    ensures
        answer_holds(first) == answer_holds(second),
{
    assert(answer_values(first).len() == first.len());
    assert(answer_values(second).len() == second.len());
    if first.len() > 0 {
        assert(answer_values(first)[0] == first[0]@);
        assert(answer_values(second)[0] == second[0]@);
    }
}

} // verus!
