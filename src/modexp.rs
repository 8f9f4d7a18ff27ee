//! Modular exponentiation by repeated squaring.

use crate::bigint::{
    big_clone, big_halve, big_is_odd, big_is_one, big_is_zero, big_mul, big_one, big_rem,
    big_value, big_zero,
};
use num_bigint::BigUint;
use vstd::arithmetic::div_mod::{lemma_mul_mod_noop_left, lemma_mul_mod_noop_right, lemma_small_mod};
use vstd::arithmetic::power::{
    lemma_pow0, lemma_pow1, lemma_pow_adds, lemma_pow_mod_noop, lemma_pow_multiplies, pow,
};
use vstd::prelude::*;

verus! {

/// `base` raised to `exponent`, reduced modulo `modulus`.
pub open spec fn mod_pow(base: nat, exponent: nat, modulus: nat) -> nat
    recommends
        modulus > 0,
{
    (pow(base as int, exponent) % (modulus as int)) as nat
}

/// Computes `base^exponent mod modulus`. A modulus of one gives zero.
pub fn mod_exp(base: &BigUint, exponent: &BigUint, modulus: &BigUint) -> (r: BigUint)
    requires
        big_value(*modulus) >= 1,
    ensures
        big_value(r) == mod_pow(big_value(*base), big_value(*exponent), big_value(*modulus)),
        big_value(r) < big_value(*modulus),
{
    let ghost m = big_value(*modulus) as int;
    let ghost b0 = big_value(*base) as int;
    let ghost e0 = big_value(*exponent);
    if big_is_one(modulus) {
        assert(pow(b0, e0) % 1 == 0);
        return big_zero();
    }
    let mut result = big_one();
    let mut sq = big_rem(base, modulus);
    let mut exp = big_clone(exponent);
    proof {
        lemma_pow_mod_noop(b0, e0, m);
        assert(1 * pow(b0 % m, e0) == pow(b0 % m, e0));
    }
    while !big_is_zero(&exp)
        invariant
            m == big_value(*modulus) as int,
            m > 1,
            big_value(result) < m,
            big_value(sq) < m,
            (big_value(result) * pow(big_value(sq) as int, big_value(exp))) % m == pow(b0, e0) % m,
        decreases big_value(exp),
    {
        let ghost r0 = big_value(result) as int;
        let ghost s0 = big_value(sq) as int;
        let ghost k0 = big_value(exp);
        let ghost half = k0 / 2;
        proof {
            lemma_pow_adds(s0, 2 * half, (k0 % 2) as nat);
            lemma_pow_multiplies(s0, 2, half);
            assert(pow(s0, 2) == s0 * s0) by {
                lemma_pow1(s0);
                lemma_pow_adds(s0, 1, 1);
            }
            lemma_pow_mod_noop(s0 * s0, half, m);
        }
        if big_is_odd(&exp) {
            let next = big_mul(&result, &sq);
            result = big_rem(&next, modulus);
            proof {
                lemma_pow1(s0);
                let rest = pow(s0 * s0, half);
                assert(pow(s0, k0) == rest * s0) by (nonlinear_arith)
                    requires pow(s0, k0) == pow(s0, 2 * half) * pow(s0, 1), pow(s0, 2 * half) == rest, pow(s0, 1) == s0;
                assert(r0 * pow(s0, k0) == (r0 * s0) * rest) by (nonlinear_arith)
                    requires pow(s0, k0) == rest * s0;
                lemma_mul_mod_noop_left(r0 * s0, rest, m);
                lemma_mul_mod_noop_right(big_value(result) as int, rest, m);
                lemma_mul_mod_noop_right(big_value(result) as int, pow((s0 * s0) % m, half), m);
            }
        } else {
            proof {
                lemma_pow0(s0);
                let rest = pow(s0 * s0, half);
                assert(pow(s0, k0) == rest);
                lemma_mul_mod_noop_right(r0, rest, m);
                lemma_mul_mod_noop_right(r0, pow((s0 * s0) % m, half), m);
            }
        }
        big_halve(&mut exp);
        let squared = big_mul(&sq, &sq);
        sq = big_rem(&squared, modulus);
    }
    proof {
        lemma_pow0(big_value(sq) as int);
        lemma_small_mod(big_value(result), m as nat);
    }
    result
}

/// `mod_exp` with a zero exponent gives one, for every modulus above one.
pub proof fn lemma_mod_exp_zero_exponent(base: nat, modulus: nat)
    requires
        modulus > 1,
    ensures
        mod_pow(base, 0, modulus) == 1,
{
    reveal(pow);
    lemma_small_mod(1, modulus);
}

/// `mod_exp` modulo one gives zero, for every base and exponent.
pub proof fn lemma_mod_exp_unit_modulus(base: nat, exponent: nat)
    ensures
        mod_pow(base, exponent, 1) == 0,
{
}

} // verus!
