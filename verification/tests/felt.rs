use transaction_executor::felt::{FieldElement, MODULUS_TOP};

#[test]
fn digits_round_trip() {
    let element = FieldElement::from_digits(1, 2, 3, 4).unwrap();
    assert_eq!(element.digits(), (1, 2, 3, 4));
}

#[test]
fn largest_element_is_modulus_minus_one() {
    let largest = FieldElement::from_digits(MODULUS_TOP, 0, 0, 0);
    assert_eq!(largest.unwrap().digits(), (0x0800_0000_0000_0011, 0, 0, 0));
}

#[test]
fn modulus_is_no_element() {
    assert_eq!(FieldElement::from_digits(MODULUS_TOP, 0, 0, 1), None);
}

#[test]
fn digits_above_modulus_are_no_element() {
    assert_eq!(FieldElement::from_digits(MODULUS_TOP, 0, 1, 0), None);
    assert_eq!(FieldElement::from_digits(MODULUS_TOP, 1, 0, 0), None);
    assert_eq!(FieldElement::from_digits(MODULUS_TOP + 1, 0, 0, 0), None);
    assert_eq!(FieldElement::from_digits(u64::MAX, u64::MAX, u64::MAX, u64::MAX), None);
}

#[test]
fn digits_below_top_digit_are_elements() {
    let element = FieldElement::from_digits(MODULUS_TOP - 1, u64::MAX, u64::MAX, u64::MAX);
    assert_eq!(element.unwrap().digits(), (MODULUS_TOP - 1, u64::MAX, u64::MAX, u64::MAX));
}

#[test]
fn from_u64_fills_lowest_digit() {
    assert_eq!(FieldElement::from_u64(0).digits(), (0, 0, 0, 0));
    assert_eq!(FieldElement::from_u64(u64::MAX).digits(), (0, 0, 0, u64::MAX));
}

#[test]
fn one_is_one() {
    assert_eq!(FieldElement::one().digits(), (0, 0, 0, 1));
    assert!(FieldElement::one().is_one());
    assert_eq!(FieldElement::one(), FieldElement::from_u64(1));
}

#[test]
fn only_one_is_one() {
    assert!(!FieldElement::from_u64(0).is_one());
    assert!(!FieldElement::from_u64(2).is_one());
    assert!(!FieldElement::from_digits(0, 0, 1, 1).unwrap().is_one());
    assert!(!FieldElement::from_digits(0, 1, 0, 1).unwrap().is_one());
    assert!(!FieldElement::from_digits(1, 0, 0, 1).unwrap().is_one());
}

#[test]
fn equal_digits_make_equal_elements() {
    let a = FieldElement::from_digits(5, 6, 7, 8).unwrap();
    let b = FieldElement::from_digits(5, 6, 7, 8).unwrap();
    let c = FieldElement::from_digits(5, 6, 7, 9).unwrap();
    assert_eq!(a, b);
    assert_ne!(a, c);
}
