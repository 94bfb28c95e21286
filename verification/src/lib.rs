//! Verification side of a non-interactive range proof built on Pedersen
//! commitments over an RSA-style group, with challenges derived by a
//! Fiat-Shamir transform.

pub mod arith;
mod bigint;
pub mod commitment;
pub mod encoding;
pub mod fiat_shamir;
pub mod hash;
pub mod integer;
pub mod range_proof;
pub mod verify;
