//! Isomorphism search between short Weierstrass elliptic curves over a
//! prime field, built on verified modular exponentiation over `BigUint`.

pub mod bigint;
pub mod curve;
pub mod modexp;
