use num::BigUint;
use num::ToPrimitive;
use vstd::prelude::*;

verus! {

/// The number that base-2^32 digits stand for, least significant digit first.
pub open spec fn digits_value(d: Seq<u32>) -> nat
    decreases d.len(),
{
    if d.len() == 0 {
        0
    } else {
        d[0] as nat + 0x1_0000_0000 * digits_value(d.drop_first())
    }
}

/// Relies on `BigUint::from(usize)` and `BigUint::to_u32_digits`: the digits of `n`.
#[verifier::external_body]
fn digits_of_usize(n: usize) -> (r: Vec<u32>)
    ensures
        digits_value(r@) == n,
{
    BigUint::from(n).to_u32_digits()
}

/// Relies on `&BigUint * &BigUint`: the product of two naturals.
#[verifier::external_body]
fn digits_mul(a: &Vec<u32>, b: &Vec<u32>) -> (r: Vec<u32>)
    ensures
        digits_value(r@) == digits_value(a@) * digits_value(b@),
{
    (&BigUint::from_slice(a) * &BigUint::from_slice(b)).to_u32_digits()
}

/// Relies on `&BigUint % &BigUint`: the remainder of a division, which panics
/// on a zero divisor.
#[verifier::external_body]
fn digits_rem(a: &Vec<u32>, m: &Vec<u32>) -> (r: Vec<u32>)
    requires
        digits_value(m@) > 0,
    ensures
        digits_value(r@) == digits_value(a@) % digits_value(m@),
{
    (&BigUint::from_slice(a) % &BigUint::from_slice(m)).to_u32_digits()
}

/// Relies on `ToPrimitive::to_usize` for `BigUint`: the value when it fits in
/// a `usize`, `None` otherwise.
#[verifier::external_body]
fn digits_to_usize(a: &Vec<u32>) -> (r: Option<usize>)
    ensures
        r == (if digits_value(a@) <= usize::MAX {
            Some(digits_value(a@) as usize)
        } else {
            None::<usize>
        }),
{
    BigUint::from_slice(a).to_usize()
}

/// A natural number of unbounded size.
pub struct Natural {
    digits: Vec<u32>,
}

impl View for Natural {
    type V = nat;

    closed spec fn view(&self) -> nat {
        digits_value(self.digits@)
    }
}

impl Natural {
    /// The natural number `n`.
    pub fn from_usize(n: usize) -> (r: Natural)
        ensures
            r@ == n,
    {
        Natural { digits: digits_of_usize(n) }
    }

    /// The value as a `usize`, or `None` where it does not fit.
    pub fn to_usize(&self) -> (r: Option<usize>)
        ensures
            r == (if self@ <= usize::MAX {
                Some(self@ as usize)
            } else {
                None::<usize>
            }),
    {
        digits_to_usize(&self.digits)
    }

    /// `self * other`.
    pub fn product(&self, other: &Natural) -> (r: Natural)
        ensures
            r@ == self@ * other@,
    {
        Natural { digits: digits_mul(&self.digits, &other.digits) }
    }

    /// `self % modulus`.
    pub fn remainder(&self, modulus: &Natural) -> (r: Natural)
        requires
            modulus@ > 0,
        ensures
            r@ == self@ % modulus@,
    {
        Natural { digits: digits_rem(&self.digits, &modulus.digits) }
    }
}

} // verus!
