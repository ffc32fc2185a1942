use transaction_executor::check_execution::{precondition_holds, precondition_request, BlockTag};
use transaction_executor::felt::FieldElement;

#[test]
fn request_names_the_check_entry_point() {
    let contract = FieldElement::from_digits(0x01, 0xaa, 0xbb, 0xcc).unwrap();
    let request = precondition_request(contract);
    assert_eq!(request.call.to, contract);
    assert_eq!(
        request.call.selector.digits(),
        (0x021defd9e3cc3236, 0x1f3905ca994cf17a, 0x5f9eb5049d2b58ed, 0x60c0ac43ef52b626)
    );
    assert!(request.call.calldata.is_empty());
    assert_eq!(request.block, BlockTag::Latest);
}

#[test]
fn request_is_the_same_each_time() {
    let contract = FieldElement::from_u64(77);
    assert_eq!(precondition_request(contract), precondition_request(contract));
}

#[test]
fn answer_one_holds() {
    assert!(precondition_holds(&vec![FieldElement::one()]));
}

#[test]
fn answer_zero_does_not_hold() {
    assert!(!precondition_holds(&vec![FieldElement::from_u64(0)]));
}

#[test]
fn answer_other_than_one_does_not_hold() {
    assert!(!precondition_holds(&vec![FieldElement::from_u64(2)]));
    assert!(!precondition_holds(&vec![FieldElement::from_u64(u64::MAX)]));
    assert!(!precondition_holds(&vec![FieldElement::from_digits(0, 0, 1, 1).unwrap()]));
    assert!(!precondition_holds(&vec![FieldElement::from_digits(1, 0, 0, 1).unwrap()]));
}

#[test]
fn only_the_first_value_is_read() {
    assert!(precondition_holds(&vec![FieldElement::one(), FieldElement::from_u64(0)]));
    assert!(!precondition_holds(&vec![FieldElement::from_u64(0), FieldElement::one()]));
}

#[test]
fn same_answer_same_verdict() {
    let answer = vec![FieldElement::one(), FieldElement::from_u64(3)];
    assert_eq!(precondition_holds(&answer), precondition_holds(&answer));
    let other = vec![FieldElement::from_u64(5)];
    assert_eq!(precondition_holds(&other), precondition_holds(&other.clone()));
}
