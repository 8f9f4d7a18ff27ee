use ec_isomorphism::curve::{isomorphic, EllipticCurve};
use num_bigint::BigUint;

fn curve(a: u64, b: u64, p: u64) -> EllipticCurve {
    EllipticCurve { a: BigUint::from(a), b: BigUint::from(b), p: BigUint::from(p) }
}

#[test]
fn example_pair_is_isomorphic_with_two() {
    // u = 2: 2^4 = 1 and 2^6 = 4 modulo 5, so (1, 1) maps onto (1, 4).
    let c1 = curve(1, 1, 5);
    let c2 = curve(1, 4, 5);
    assert_eq!(isomorphic(&c1, &c2), Some(BigUint::from(2u32)));
}

#[test]
fn identical_curves_give_one() {
    let c1 = curve(1, 1, 5);
    let c2 = curve(1, 1, 5);
    assert_eq!(isomorphic(&c1, &c2), Some(BigUint::from(1u32)));
}

#[test]
fn reflexive_for_several_curves() {
    for &(a, b, p) in &[(0u64, 0u64, 5u64), (2, 3, 7), (10, 20, 101), (6, 1, 2), (5, 9, 3)] {
        let c = curve(a, b, p);
        assert_eq!(isomorphic(&c, &c), Some(BigUint::from(1u32)));
    }
}

#[test]
fn constructed_witness_gives_smallest_scale() {
    // Over p = 7 both u = 3 and u = 4 map (2, 3) onto (1, 3); 3 comes first.
    let c1 = curve(2, 3, 7);
    for u0 in [3u64, 4] {
        let a2 = (u0.pow(4) * 2) % 7;
        let b2 = (u0.pow(6) * 3) % 7;
        assert_eq!((a2, b2), (1, 3));
        let c2 = curve(a2, b2, 7);
        assert_eq!(isomorphic(&c1, &c2), Some(BigUint::from(3u32)));
    }
}

#[test]
fn constructed_witness_over_larger_prime() {
    let p = 101u64;
    let c1 = curve(17, 29, p);
    let u0 = 45u64;
    let a2 = (u0.pow(4) % p * 17) % p;
    let b2 = (u0.pow(6) % p * 29) % p;
    let c2 = curve(a2, b2, p);
    let r = isomorphic(&c1, &c2).expect("a scale factor exists");
    let u: u64 = r.to_u64_digits().first().copied().unwrap_or(0);
    assert!(u >= 1 && u <= u0);
    assert_eq!((u.pow(4) % p * 17) % p, a2);
    assert_eq!((u.pow(6) % p * 29) % p, b2);
    for v in 1..u {
        assert!(!((v.pow(4) % p * 17) % p == a2 && (v.pow(6) % p * 29) % p == b2));
    }
}

#[test]
fn no_isomorphism_gives_none() {
    // Scaling keeps a zero coefficient zero, so `a = 0` never maps onto `a = 1`.
    let c1 = curve(0, 1, 7);
    let c2 = curve(1, 1, 7);
    assert_eq!(isomorphic(&c1, &c2), None);
}

#[test]
fn coefficients_compared_as_congruences() {
    let c1 = curve(1, 1, 5);
    let c2 = curve(6, 9, 5);
    assert_eq!(isomorphic(&c1, &c2), Some(BigUint::from(2u32)));
}

#[test]
fn degenerate_moduli_give_none() {
    assert_eq!(isomorphic(&curve(1, 1, 1), &curve(1, 1, 1)), None);
    assert_eq!(isomorphic(&curve(1, 1, 0), &curve(1, 1, 0)), None);
}

#[test]
fn modulus_beyond_u32_is_searched() {
    let p = 4_294_967_311u64;
    let c = curve(3, 5, p);
    assert_eq!(isomorphic(&c, &c), Some(BigUint::from(1u32)));
    let c2 = curve(3 * 16 % p, 5 * 64 % p, p);
    assert_eq!(isomorphic(&c, &c2), Some(BigUint::from(2u32)));
}

#[test]
fn repeated_calls_agree() {
    let c1 = curve(2, 3, 7);
    let c2 = curve(1, 3, 7);
    let first = isomorphic(&c1, &c2);
    for _ in 0..5 {
        assert_eq!(isomorphic(&c1, &c2), first);
    }
    let e1 = isomorphic(&curve(1, 1, 5), &curve(1, 4, 5));
    let e2 = isomorphic(&curve(1, 1, 5), &curve(1, 4, 5));
    assert_eq!(e1, e2);
}
