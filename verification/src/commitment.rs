//! Modular exponentiation and the Pedersen commitment built from it.

use crate::arith::{floor_mod, lemma_floor_mod_bounds, lemma_floor_mod_congruent, trunc_rem};
use crate::bigint::{big_modpow, big_mul, big_rem};
use crate::integer::Integer;
use vstd::arithmetic::div_mod::*;
use vstd::arithmetic::power::*;
use vstd::math::abs;
use vstd::prelude::*;

verus! {

/// What `mod_exp` computes. A negative base or exponent is replaced by its
/// absolute value; no modular inverse is taken. The power is reduced with
/// the sign of the modulus.
pub open spec fn spec_mod_exp(base: int, exp: int, modulus: int) -> int {
    floor_mod(pow(abs(base) as int, abs(exp)), modulus)
}

/// What `pedersen_commit` computes: the product of the two powers `g^m` and
/// `h^r`, each reduced by `n`, reduced by `n` once more.
pub open spec fn spec_pedersen_commit(g: int, h: int, m: int, r: int, n: int) -> int {
    trunc_rem(spec_mod_exp(g, m, n) * spec_mod_exp(h, r, n), n)
}

/// `base` to the power `exp`, reduced by `modulus`, with a negative base or
/// exponent negated first. For a positive modulus the result lies in
/// `[0, modulus)`.
pub fn mod_exp(base: &Integer, exp: &Integer, modulus: &Integer) -> (r: Integer)
    requires
        modulus@ != 0,
    ensures
        r@ == spec_mod_exp(base@, exp@, modulus@),
        modulus@ > 0 ==> 0 <= r@ < modulus@,
{
    let base_pos = if base.is_negative() {
        base.neg()
    } else {
        base.clone()
    };
    let exp_pos = if exp.is_negative() {
        exp.neg()
    } else {
        exp.clone()
    };
    proof {
        lemma_floor_mod_bounds(pow(abs(base@) as int, abs(exp@)), modulus@);
    }
    big_modpow(&base_pos, &exp_pos, modulus)
}

/// The commitment `g^m * h^r mod n` to the value `m` under the blinding
/// factor `r`. Neither `m` nor `r` is held to any range.
pub fn pedersen_commit(g: &Integer, h: &Integer, m: &Integer, r: &Integer, n: &Integer) -> (c:
    Integer)
    requires
        n@ != 0,
    ensures
        c@ == spec_pedersen_commit(g@, h@, m@, r@, n@),
        0 <= c@ < abs(n@),
{
    let left = mod_exp(g, m, n);
    let right = mod_exp(h, r, n);
    let product = big_mul(&left, &right);
    proof {
        lemma_commit_closed_form(g@, h@, m@, r@, n@);
        lemma_mod_bound(pow(abs(g@) as int, abs(m@)) * pow(abs(h@) as int, abs(r@)), abs(n@) as int);
    }
    big_rem(&product, n)
}

/// The product of two numbers that each have the sign of `n` (or are zero)
/// is not negative.
proof fn lemma_same_sign_product(a: int, b: int, n: int)
    requires
        n > 0 ==> a >= 0 && b >= 0,
        n < 0 ==> a <= 0 && b <= 0,
        n != 0,
    ensures
        a * b >= 0,
{
    assert(a * b >= 0) by (nonlinear_arith)
        requires
            (a >= 0 && b >= 0) || (a <= 0 && b <= 0),
    ;
}

/// The commitment in closed form: the product of the two powers, taken over
/// the absolute values of bases and exponents, reduced by the magnitude of
/// the modulus.
pub proof fn lemma_commit_closed_form(g: int, h: int, m: int, r: int, n: int)
    requires
        n != 0,
    ensures
        spec_pedersen_commit(g, h, m, r, n) == (pow(abs(g) as int, abs(m)) * pow(
            abs(h) as int,
            abs(r),
        )) % (abs(n) as int),
{
    let big = abs(n) as int;
    let gm = pow(abs(g) as int, abs(m));
    let hr = pow(abs(h) as int, abs(r));
    let a = spec_mod_exp(g, m, n);
    let b = spec_mod_exp(h, r, n);
    lemma_floor_mod_bounds(gm, n);
    lemma_floor_mod_bounds(hr, n);
    lemma_floor_mod_congruent(gm, n);
    lemma_floor_mod_congruent(hr, n);
    lemma_same_sign_product(a, b, n);
    // a * b is not negative, so its remainder is the Euclidean one.
    assert(spec_pedersen_commit(g, h, m, r, n) == (a * b) % big);
    lemma_mul_mod_noop(a, b, big);
    lemma_mul_mod_noop(gm, hr, big);
}

/// A commitment is a residue: it is not negative and lies below the
/// magnitude of the modulus, whatever the generators, the value and the
/// blinding factor are. For a positive modulus `n` it lies in `[0, n)`.
pub proof fn lemma_commit_in_range(g: int, h: int, m: int, r: int, n: int)
    requires
        n != 0,
    ensures
        0 <= spec_pedersen_commit(g, h, m, r, n) < abs(n),
        n > 0 ==> 0 <= spec_pedersen_commit(g, h, m, r, n) < n,
{
    lemma_commit_closed_form(g, h, m, r, n);
    lemma_mod_bound(pow(abs(g) as int, abs(m)) * pow(abs(h) as int, abs(r)), abs(n) as int);
}

/// Commitments are homomorphic: the product of two commitments, reduced by
/// the modulus, is the commitment to the sum of the two values under the sum
/// of the two blinding factors.
///
/// Exponents enter by their absolute value, so this holds where the two
/// values do not have opposite signs, and neither do the two blinding
/// factors.
pub proof fn lemma_commit_homomorphic(
    g: int,
    h: int,
    m1: int,
    r1: int,
    m2: int,
    r2: int,
    n: int,
)
    requires
        n != 0,
        (m1 >= 0 && m2 >= 0) || (m1 <= 0 && m2 <= 0),
        (r1 >= 0 && r2 >= 0) || (r1 <= 0 && r2 <= 0),
    ensures
        trunc_rem(spec_pedersen_commit(g, h, m1, r1, n) * spec_pedersen_commit(g, h, m2, r2, n), n)
            == spec_pedersen_commit(g, h, m1 + m2, r1 + r2, n),
{
    let big = abs(n) as int;
    let gb = abs(g) as int;
    let hb = abs(h) as int;
    let g1 = pow(gb, abs(m1));
    let g2 = pow(gb, abs(m2));
    let h1 = pow(hb, abs(r1));
    let h2 = pow(hb, abs(r2));
    let c1 = spec_pedersen_commit(g, h, m1, r1, n);
    let c2 = spec_pedersen_commit(g, h, m2, r2, n);
    lemma_commit_closed_form(g, h, m1, r1, n);
    lemma_commit_closed_form(g, h, m2, r2, n);
    lemma_commit_closed_form(g, h, m1 + m2, r1 + r2, n);
    lemma_commit_in_range(g, h, m1, r1, n);
    lemma_commit_in_range(g, h, m2, r2, n);
    lemma_same_sign_product(c1, c2, 1);
    // The exponents add, so the powers multiply.
    assert(abs(m1 + m2) == abs(m1) + abs(m2));
    assert(abs(r1 + r2) == abs(r1) + abs(r2));
    lemma_pow_adds(gb, abs(m1), abs(m2));
    lemma_pow_adds(hb, abs(r1), abs(r2));
    lemma_mul_mod_noop(g1 * h1, g2 * h2, big);
    assert((g1 * h1) * (g2 * h2) == (g1 * g2) * (h1 * h2)) by (nonlinear_arith);
}

/// An exponent of zero gives one, reduced by the modulus, for every base.
/// For a modulus above one that is one itself.
pub proof fn lemma_mod_exp_zero_exponent(base: int, modulus: int)
    requires
        modulus != 0,
    ensures
        spec_mod_exp(base, 0, modulus) == floor_mod(1, modulus),
        modulus > 1 ==> spec_mod_exp(base, 0, modulus) == 1,
{
    lemma_pow0(abs(base) as int);
    if modulus > 1 {
        lemma_small_mod(1, modulus as nat);
    }
}

} // verus!
