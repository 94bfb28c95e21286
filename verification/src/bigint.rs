//! Arithmetic on [`Integer`] values, computed by `num_bigint`.
//!
//! Every function here is trusted: Verus believes its contract and does not
//! read its body. Each hands its arguments to `num_bigint` as sign and
//! big-endian magnitude (`BigInt::from_bytes_be`), makes one call, and takes
//! the result back the same way (`BigInt::to_bytes_be`). Each contract claims
//! that these two conversions keep the value, and what its own comment says
//! of the call.

use crate::arith::{floor_mod, trunc_rem};
use crate::encoding::decimal_text;
use crate::integer::Integer;
use num_bigint::{BigInt, Sign};
use vstd::arithmetic::power::*;
use vstd::prelude::*;

verus! {

/// Trusted: the product of two integers, computed by `num_bigint`'s `*` on
/// `BigInt`. The contract claims that `*` multiplies.
#[verifier::external_body]
pub(crate) fn big_mul(a: &Integer, b: &Integer) -> (r: Integer)
    ensures
        r@ == a@ * b@,
{
    let x = BigInt::from_bytes_be(if a.negative { Sign::Minus } else { Sign::Plus }, &a.magnitude);
    let y = BigInt::from_bytes_be(if b.negative { Sign::Minus } else { Sign::Plus }, &b.magnitude);
    let (sign, magnitude) = (x * y).to_bytes_be();
    Integer { negative: matches!(sign, Sign::Minus), magnitude }
}

/// Trusted: the sum of two integers, computed by `num_bigint`'s `+` on
/// `BigInt`. The contract claims that `+` adds.
#[verifier::external_body]
pub(crate) fn big_add(a: &Integer, b: &Integer) -> (r: Integer)
    ensures
        r@ == a@ + b@,
{
    let x = BigInt::from_bytes_be(if a.negative { Sign::Minus } else { Sign::Plus }, &a.magnitude);
    let y = BigInt::from_bytes_be(if b.negative { Sign::Minus } else { Sign::Plus }, &b.magnitude);
    let (sign, magnitude) = (x + y).to_bytes_be();
    Integer { negative: matches!(sign, Sign::Minus), magnitude }
}

/// Trusted: the remainder of `a` divided by `b`, computed by `num_bigint`'s
/// `%` on `BigInt`. That operator panics on a zero divisor, which `requires`
/// leaves out. The contract claims that it divides magnitudes and gives the
/// remainder the sign of the dividend.
#[verifier::external_body]
pub(crate) fn big_rem(a: &Integer, b: &Integer) -> (r: Integer)
    requires
        b@ != 0,
    ensures
        r@ == trunc_rem(a@, b@),
{
    let x = BigInt::from_bytes_be(if a.negative { Sign::Minus } else { Sign::Plus }, &a.magnitude);
    let y = BigInt::from_bytes_be(if b.negative { Sign::Minus } else { Sign::Plus }, &b.magnitude);
    let (sign, magnitude) = (x % y).to_bytes_be();
    Integer { negative: matches!(sign, Sign::Minus), magnitude }
}

/// Trusted: `base` raised to `exponent` and reduced by `modulus`, computed by
/// `num_bigint`'s `BigInt::modpow`. That method panics on a negative
/// exponent and on a zero modulus, which `requires` leaves out. The contract
/// claims what its documentation says: the power is reduced with the
/// rounding of `mod_floor`, so the result has the sign of the modulus.
#[verifier::external_body]
pub(crate) fn big_modpow(base: &Integer, exponent: &Integer, modulus: &Integer) -> (r: Integer)
    requires
        exponent@ >= 0,
        modulus@ != 0,
    ensures
        r@ == floor_mod(pow(base@, exponent@ as nat), modulus@),
{
    let b = BigInt::from_bytes_be(if base.negative { Sign::Minus } else { Sign::Plus }, &base.magnitude);
    let e = BigInt::from_bytes_be(if exponent.negative { Sign::Minus } else { Sign::Plus }, &exponent.magnitude);
    let m = BigInt::from_bytes_be(if modulus.negative { Sign::Minus } else { Sign::Plus }, &modulus.magnitude);
    let (sign, magnitude) = b.modpow(&e, &m).to_bytes_be();
    Integer { negative: matches!(sign, Sign::Minus), magnitude }
}

/// Trusted: the text of an integer in base 10, computed by `num_bigint`'s
/// `BigInt::to_str_radix` with radix 10. The contract claims that the text
/// is the decimal digits of the magnitude, without leading zeros, behind a
/// minus sign for a value below zero.
#[verifier::external_body]
pub(crate) fn big_decimal(a: &Integer) -> (r: Vec<u8>)
    ensures
        r@ == decimal_text(a@),
{
    let x = BigInt::from_bytes_be(if a.negative { Sign::Minus } else { Sign::Plus }, &a.magnitude);
    x.to_str_radix(10).into_bytes()
}

} // verus!
