//! Elliptic curves in short Weierstrass form, `y^2 = x^3 + a x + b` over the
//! field of integers modulo a prime `p`, and the search for a scale factor
//! `u` that maps one curve onto another.

use crate::bigint::{
    big_eq, big_from_u32, big_increment, big_lt, big_mul, big_one, big_rem, big_value,
};
use crate::modexp::mod_exp;
use num_bigint::BigUint;
use vstd::arithmetic::div_mod::lemma_mul_mod_noop_left;
use vstd::arithmetic::power::pow;
use vstd::prelude::*;

verus! {

/// A curve `y^2 = x^3 + a x + b` over the integers modulo `p`.
///
/// The modulus is meant to be a prime greater than 3; that is left to the
/// caller and never tested.
pub struct EllipticCurve {
    pub a: BigUint,
    pub b: BigUint,
    pub p: BigUint,
}

/// Whether `u` scales the coefficients `(a1, b1)` onto `(a2, b2)` modulo `p`:
/// `a2 = u^4 a1` and `b2 = u^6 b1`, both as congruences.
pub open spec fn is_scale(a1: nat, b1: nat, a2: nat, b2: nat, p: nat, u: nat) -> bool {
    &&& a2 as int % p as int == (pow(u as int, 4) * a1) % p as int
    &&& b2 as int % p as int == (pow(u as int, 6) * b1) % p as int
}

/// Whether `u` maps `c1` onto `c2`, working modulo the modulus of `c1`.
pub open spec fn scales_to(c1: EllipticCurve, c2: EllipticCurve, u: nat) -> bool {
    is_scale(
        big_value(c1.a),
        big_value(c1.b),
        big_value(c2.a),
        big_value(c2.b),
        big_value(c1.p),
        u,
    )
}

/// Whether `r` is the outcome of searching `1, 2, ..., p - 1` in increasing
/// order for a scale factor from `c1` to `c2`: the first one found, or
/// `None` when there is none in that range.
pub open spec fn is_search_outcome(c1: EllipticCurve, c2: EllipticCurve, r: Option<nat>) -> bool {
    match r {
        Some(u) => {
            &&& 1 <= u < big_value(c1.p)
            &&& scales_to(c1, c2, u)
            &&& forall|v: nat| 1 <= v < u ==> !scales_to(c1, c2, v)
        },
        None => forall|v: nat| 1 <= v < big_value(c1.p) ==> !scales_to(c1, c2, v),
    }
}

/// The number held by an optional `BigUint`.
pub open spec fn optional_value(r: Option<BigUint>) -> Option<nat> {
    match r {
        Some(u) => Some(big_value(u)),
        None => None,
    }
}

/// Looks for the smallest `u` in `1, ..., p - 1`, with `p` the modulus of
/// `curve1`, such that `curve2.a = u^4 curve1.a` and `curve2.b = u^6 curve1.b`
/// modulo `p`. Returns `None` when no such `u` exists. Only the modulus of
/// `curve1` is read; the two curves are meant to share it.
pub fn isomorphic(curve1: &EllipticCurve, curve2: &EllipticCurve) -> (r: Option<BigUint>)
    ensures
        is_search_outcome(*curve1, *curve2, optional_value(r)),
{
    let p = &curve1.p;
    let four = big_from_u32(4);
    let six = big_from_u32(6);
    let mut u = big_one();
    while big_lt(&u, p)
        invariant
            p == &curve1.p,
            big_value(four) == 4,
            big_value(six) == 6,
            1 <= big_value(u),
            forall|v: nat| 1 <= v < big_value(u) ==> !scales_to(*curve1, *curve2, v),
        decreases big_value(*p) - big_value(u),
    {
        let ghost m = big_value(*p) as int;
        let ghost uv = big_value(u) as int;
        let u4 = mod_exp(&u, &four, p);
        let u6 = mod_exp(&u, &six, p);
        let a_scaled = big_mul(&u4, &curve1.a);
        let b_scaled = big_mul(&u6, &curve1.b);
        let a_expected = big_rem(&a_scaled, p);
        let b_expected = big_rem(&b_scaled, p);
        let a_target = big_rem(&curve2.a, p);
        let b_target = big_rem(&curve2.b, p);
        proof {
            lemma_mul_mod_noop_left(pow(uv, 4), big_value(curve1.a) as int, m);
            lemma_mul_mod_noop_left(pow(uv, 6), big_value(curve1.b) as int, m);
        }
        if big_eq(&a_target, &a_expected) && big_eq(&b_target, &b_expected) {
            return Some(u);
        }
        big_increment(&mut u);
    }
    None
}

/// Every curve is isomorphic to itself, and the search finds `u = 1` first,
/// as long as the modulus is above one.
pub proof fn lemma_isomorphic_reflexive(curve: EllipticCurve)
    requires
        big_value(curve.p) > 1,
    ensures
        is_search_outcome(curve, curve, Some(1)),
{
    vstd::arithmetic::power::lemma_pow1(1);
    vstd::arithmetic::power::lemma1_pow(4);
    vstd::arithmetic::power::lemma1_pow(6);
}

/// The search has a single possible outcome for given curves: two results
/// that both meet the contract of `isomorphic` hold the same number.
pub proof fn lemma_isomorphic_deterministic(
    curve1: EllipticCurve,
    curve2: EllipticCurve,
    r1: Option<nat>,
    r2: Option<nat>,
)
    requires
        is_search_outcome(curve1, curve2, r1),
        is_search_outcome(curve1, curve2, r2),
    ensures
        r1 == r2,
{
    match (r1, r2) {
        (Some(u1), Some(u2)) => {
            if u1 < u2 {
                assert(!scales_to(curve1, curve2, u1));
            } else if u2 < u1 {
                assert(!scales_to(curve1, curve2, u2));
            }
        },
        (Some(u1), None) => {
            assert(!scales_to(curve1, curve2, u1));
        },
        (None, Some(u2)) => {
            assert(!scales_to(curve1, curve2, u2));
        },
        (None, None) => {},
    }
}

} // verus!
