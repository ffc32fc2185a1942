//! Elements of the Starknet field, as four 64-bit digits.

use vstd::prelude::*;

verus! {

/// The most significant digit of the field's modulus,
/// `2^251 + 17 * 2^192 + 1`. Its other digits are `0, 0, 1`.
pub const MODULUS_TOP: u64 = 0x0800_0000_0000_0011;

/// The modulus of the Starknet field.
pub open spec fn modulus() -> nat {
    0x0800_0000_0000_0011_0000_0000_0000_0000_0000_0000_0000_0000_0000_0000_0000_0001nat
}

/// The integer with the given base-2^64 digits, most significant first.
pub open spec fn digits_value(w3: u64, w2: u64, w1: u64, w0: u64) -> nat {
    (w3 as nat) * 0x1_0000_0000_0000_0000_0000_0000_0000_0000_0000_0000_0000_0000nat
        + (w2 as nat) * 0x1_0000_0000_0000_0000_0000_0000_0000_0000nat
        + (w1 as nat) * 0x1_0000_0000_0000_0000nat
        + (w0 as nat)
}

/// An element of the Starknet field, held as its least non-negative
/// representative in four 64-bit digits.
#[derive(Clone, Copy, Debug, PartialEq, Eq, Structural)]
pub struct FieldElement {
    w3: u64,
    w2: u64,
    w1: u64,
    w0: u64,
}

impl View for FieldElement {
    type V = nat;

    /// The integer that the element stands for.
    closed spec fn view(&self) -> nat {
        digits_value(self.w3, self.w2, self.w1, self.w0)
    }
}

impl FieldElement {
    /// Every element is below the modulus.
    #[verifier::type_invariant]
    pub closed spec fn reduced(self) -> bool {
        self@ < modulus()
    }

    /// The digits of the element, most significant first.
    pub closed spec fn spec_digits(self) -> (u64, u64, u64, u64) {
        (self.w3, self.w2, self.w1, self.w0)
    }

    /// The element with the given digits, most significant first, where they
    /// stand for an integer below the modulus.
    pub fn from_digits(w3: u64, w2: u64, w1: u64, w0: u64) -> (r: Option<FieldElement>)
        ensures
            r is Some <==> digits_value(w3, w2, w1, w0) < modulus(),
            r matches Some(f) ==> f@ == digits_value(w3, w2, w1, w0) && f.spec_digits() == (
                w3,
                w2,
                w1,
                w0,
            ),
    {
        if w3 < MODULUS_TOP || (w3 == MODULUS_TOP && w2 == 0 && w1 == 0 && w0 == 0) {
            Some(FieldElement { w3, w2, w1, w0 })
        } else {
            None
        }
    }

    /// The digits of the element, most significant first. They spell an
    /// integer below the modulus.
    pub fn digits(&self) -> (r: (u64, u64, u64, u64))
        ensures
            r == self.spec_digits(),
            digits_value(r.0, r.1, r.2, r.3) == self@,
            self@ < modulus(),
    {
        proof {
            use_type_invariant(self);
        }
        (self.w3, self.w2, self.w1, self.w0)
    }

    /// The element that stands for a 64-bit integer.
    pub fn from_u64(value: u64) -> (r: FieldElement)
        ensures
            r@ == value,
    {
        FieldElement { w3: 0, w2: 0, w1: 0, w0: value }
    }

    /// The multiplicative unit of the field.
    pub fn one() -> (r: FieldElement)
        ensures
            r@ == 1,
    {
        FieldElement { w3: 0, w2: 0, w1: 0, w0: 1 }
    }

    /// Whether the element is the multiplicative unit.
    pub fn is_one(&self) -> (r: bool)
        ensures
            r == (self@ == 1),
    {
        self.w3 == 0 && self.w2 == 0 && self.w1 == 0 && self.w0 == 1
    }
}

/// An element stands for the integer that its digits spell.
pub proof fn lemma_view_of_digits(a: FieldElement)
    ensures
        a@ == digits_value(
            a.spec_digits().0,
            a.spec_digits().1,
            a.spec_digits().2,
            a.spec_digits().3,
        ),
{
}

/// Two elements that stand for the same integer are the same element.
pub proof fn lemma_view_injective(a: FieldElement, b: FieldElement)
    ensures
        a@ == b@ <==> a == b,
{
    if a@ == b@ {
        let base = 0x1_0000_0000_0000_0000int;
        let a1 = (a.w3 as int) * base + a.w2;
        let b1 = (b.w3 as int) * base + b.w2;
        let a2 = a1 * base + a.w1;
        let b2 = b1 * base + b.w1;
        assert(a@ == a2 * base + a.w0) by (nonlinear_arith)
            requires
                base == 0x1_0000_0000_0000_0000int,
                a1 == (a.w3 as int) * base + a.w2,
                a2 == a1 * base + a.w1,
                a@ == digits_value(a.w3, a.w2, a.w1, a.w0),
        ;
        assert(b@ == b2 * base + b.w0) by (nonlinear_arith)
            requires
                base == 0x1_0000_0000_0000_0000int,
                b1 == (b.w3 as int) * base + b.w2,
                b2 == b1 * base + b.w1,
                b@ == digits_value(b.w3, b.w2, b.w1, b.w0),
        ;
        lemma_digit_split(a2, a.w0 as int, b2, b.w0 as int);
        lemma_digit_split(a1, a.w1 as int, b1, b.w1 as int);
        lemma_digit_split(a.w3 as int, a.w2 as int, b.w3 as int, b.w2 as int);
    }
}

/// A number splits in one way only into a multiple of 2^64 and a digit.
proof fn lemma_digit_split(high_a: int, low_a: int, high_b: int, low_b: int)
    requires
        0 <= low_a < 0x1_0000_0000_0000_0000,
        0 <= low_b < 0x1_0000_0000_0000_0000,
        high_a * 0x1_0000_0000_0000_0000 + low_a == high_b * 0x1_0000_0000_0000_0000 + low_b,
    ensures
        high_a == high_b,
        low_a == low_b,
{
}

} // verus!
