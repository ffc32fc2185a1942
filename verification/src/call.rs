//! Calls of a contract's entry points, and the selectors that name them.

use crate::felt::{digits_value, modulus, FieldElement};
use vstd::prelude::*;
use vstd::utf8::is_ascii_chars;

verus! {

/// `starknet::core::utils::NonAsciiNameError`: the name of an entry point
/// holds a character outside ASCII.
#[verifier::external_type_specification]
#[verifier::external_body]
pub struct ExNonAsciiNameError(starknet::core::utils::NonAsciiNameError);

/// The selector that Starknet derives from the name of an entry point, as an
/// integer.
pub uninterp spec fn selector_of_name(name: Seq<char>) -> nat;

/// `starknet::core::utils::get_selector_from_name`, the selector handed out
/// as its digits, most significant first (`Felt::to_be_digits`).
///
/// Trusted: the call fails exactly on names with a character outside ASCII;
/// the same name gives the same selector; the digits are those of the
/// selector's least non-negative representative, which lies below the
/// modulus of the field.
#[verifier::external_body]
fn selector_digits(name: &str) -> (r: Result<[u64; 4], starknet::core::utils::NonAsciiNameError>)
    ensures
        r is Ok <==> is_ascii_chars(name@),
        r matches Ok(digits) ==> {
            &&& digits_value(digits[0], digits[1], digits[2], digits[3]) == selector_of_name(name@)
            &&& digits_value(digits[0], digits[1], digits[2], digits[3]) < modulus()
        },
{
    match starknet::core::utils::get_selector_from_name(name) {
        Ok(selector) => Ok(selector.to_be_digits()),
        Err(error) => Err(error),
    }
}

/// The selector of the entry point with the given name, where the name is
/// ASCII.
pub fn entry_point_selector(name: &str) -> (r: Option<FieldElement>)
    ensures
        r is Some <==> is_ascii_chars(name@),
        r matches Some(selector) ==> selector@ == selector_of_name(name@),
{
    match selector_digits(name) {
        Ok(digits) => FieldElement::from_digits(digits[0], digits[1], digits[2], digits[3]),
        Err(_) => None,
    }
}

/// One call of a contract: the contract, the entry point and its arguments.
#[derive(Clone, Debug, PartialEq, Eq)]
pub struct ContractCall {
    /// The address of the contract.
    pub to: FieldElement,
    /// The selector of the entry point.
    pub selector: FieldElement,
    /// The arguments.
    pub calldata: Vec<FieldElement>,
}

/// A call as integers.
pub struct CallView {
    pub to: nat,
    pub selector: nat,
    pub calldata: Seq<nat>,
}

impl View for ContractCall {
    type V = CallView;

    open spec fn view(&self) -> CallView {
        CallView {
            to: self.to@,
            selector: self.selector@,
            calldata: self.calldata@.map_values(|argument: FieldElement| argument@),
        }
    }
}

impl ContractCall {
    /// The call of the entry point `selector` of the contract `to` that
    /// passes no argument.
    pub fn without_arguments(to: FieldElement, selector: FieldElement) -> (r: ContractCall)
        ensures
            r@ == (CallView { to: to@, selector: selector@, calldata: Seq::empty() }),
    {
        let call = ContractCall { to, selector, calldata: Vec::new() };
        assert(call@.calldata =~= Seq::empty());
        call
    }
}

/// The call of the entry point `name` of `contract` that passes no argument.
pub open spec fn bare_call(contract: FieldElement, name: Seq<char>) -> CallView {
    CallView { to: contract@, selector: selector_of_name(name), calldata: Seq::empty() }
}

/// Builds the call of the entry point `name` of `contract` that passes no
/// argument, where the name is ASCII.
pub fn call_without_arguments(contract: FieldElement, name: &str) -> (r: Option<ContractCall>)
    ensures
        r is Some <==> is_ascii_chars(name@),
        r matches Some(call) ==> call@ == bare_call(contract, name@),
{
    match entry_point_selector(name) {
        Some(selector) => Some(ContractCall::without_arguments(contract, selector)),
        None => None,
    }
}

} // verus!
