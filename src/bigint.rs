//! The arbitrary-precision unsigned integers of `num-bigint`, as the rest of
//! the library sees them: each value stands for a natural number, and each
//! operation used by the library is stated over those numbers.

use num_bigint::BigUint;
use num_traits::{One, Zero};
use vstd::prelude::*;

verus! {

#[verifier::external_type_specification]
#[verifier::external_body]
pub struct ExBigUint(BigUint);

/// The natural number that a `BigUint` holds.
pub uninterp spec fn big_value(x: BigUint) -> nat;

/// Relies on `num_traits::Zero::zero` for `BigUint`: the number zero.
#[verifier::external_body]
pub(crate) fn big_zero() -> (r: BigUint)
    ensures
        big_value(r) == 0,
{
    BigUint::zero()
}

/// Relies on `num_traits::One::one` for `BigUint`: the number one.
#[verifier::external_body]
pub(crate) fn big_one() -> (r: BigUint)
    ensures
        big_value(r) == 1,
{
    BigUint::one()
}

/// Relies on `From<u32> for BigUint`: the same number, widened.
#[verifier::external_body]
pub(crate) fn big_from_u32(x: u32) -> (r: BigUint)
    ensures
        big_value(r) == x as nat,
{
    BigUint::from(x)
}

/// Relies on `num_traits::Zero::is_zero` for `BigUint`: whether it is zero.
#[verifier::external_body]
pub(crate) fn big_is_zero(x: &BigUint) -> (r: bool)
    ensures
        r == (big_value(*x) == 0),
{
    x.is_zero()
}

/// Relies on `num_traits::One::is_one` for `BigUint`: whether it is one.
#[verifier::external_body]
pub(crate) fn big_is_one(x: &BigUint) -> (r: bool)
    ensures
        r == (big_value(*x) == 1),
{
    x.is_one()
}

/// Relies on `Rem<&BigUint> for &BigUint`: the remainder of the division,
/// which panics on a zero divisor.
#[verifier::external_body]
pub(crate) fn big_rem(a: &BigUint, m: &BigUint) -> (r: BigUint)
    requires
        big_value(*m) > 0,
    ensures
        big_value(r) == big_value(*a) % big_value(*m),
{
    a % m
}

/// Relies on `Mul<&BigUint> for &BigUint`: the exact product.
#[verifier::external_body]
pub(crate) fn big_mul(a: &BigUint, b: &BigUint) -> (r: BigUint)
    ensures
        big_value(r) == big_value(*a) * big_value(*b),
{
    a * b
}

/// Relies on `BigUint::bit`: whether bit 0, the lowest, is set.
#[verifier::external_body]
pub(crate) fn big_is_odd(x: &BigUint) -> (r: bool)
    ensures
        r == (big_value(*x) % 2 == 1),
{
    x.bit(0)
}

/// Relies on `ShrAssign<u32> for BigUint`: a right shift by one bit halves
/// the number, rounding down.
#[verifier::external_body]
pub(crate) fn big_halve(x: &mut BigUint)
    ensures
        big_value(*final(x)) == big_value(*old(x)) / 2,
{
    *x >>= 1u32;
}

/// Relies on `AddAssign<u32> for BigUint`: the exact sum.
#[verifier::external_body]
pub(crate) fn big_increment(x: &mut BigUint)
    ensures
        big_value(*final(x)) == big_value(*old(x)) + 1,
{
    *x += 1u32;
}

/// Relies on `Clone for BigUint`: a copy of the same number.
#[verifier::external_body]
pub(crate) fn big_clone(x: &BigUint) -> (r: BigUint)
    ensures
        big_value(r) == big_value(*x),
{
    x.clone()
}

/// Relies on `PartialEq for BigUint`: equality of the numbers.
#[verifier::external_body]
pub(crate) fn big_eq(a: &BigUint, b: &BigUint) -> (r: bool)
    ensures
        r == (big_value(*a) == big_value(*b)),
{
    a == b
}

/// Relies on `PartialOrd for BigUint`: the numeric order.
#[verifier::external_body]
pub(crate) fn big_lt(a: &BigUint, b: &BigUint) -> (r: bool)
    ensures
        r == (big_value(*a) < big_value(*b)),
{
    a < b
}

} // verus!
