//! The verifier.
//!
//! Verification derives three challenges from the commitments of a proof and
//! then checks the relations that the proof claims. Every failure gives the
//! same answer, `false`: the caller learns that the proof is not valid and
//! nothing more.

use crate::arith::{lemma_trunc_rem_bounds, trunc_rem};
use crate::bigint::{big_add, big_mul, big_rem};
use crate::commitment::{pedersen_commit, spec_pedersen_commit};
use crate::fiat_shamir::{fiat_shamir, spec_fiat_shamir, values_of};
use crate::integer::Integer;
use crate::range_proof::{Cuproof, CuproofView, IppProof, IppProofView};
use vstd::arithmetic::power2::*;
use vstd::math::abs;
use vstd::prelude::*;

verus! {

/// The width in bits of the range that a proof speaks of.
pub const RANGE_BITS: usize = 64;

/// The number of levels in the recursive part of a proof: the least number
/// of halvings that bring `RANGE_BITS` entries down to one.
pub const IPP_LEVELS: usize = 6;

/// `IPP_LEVELS` is the base-2 logarithm of `RANGE_BITS`, rounded up.
pub proof fn lemma_ipp_levels()
    ensures
        pow2(IPP_LEVELS as nat) >= RANGE_BITS,
        pow2((IPP_LEVELS - 1) as nat) < RANGE_BITS,
{
    lemma2_to64();
}

/// The challenge that `values` give in the group of modulus `n`.
pub open spec fn spec_challenge(values: Seq<int>, n: int) -> int {
    trunc_rem(spec_fiat_shamir(values), n)
}

/// The value at `x` of the polynomial whose coefficients the proof holds.
pub open spec fn spec_polynomial(p: CuproofView, x: int) -> int {
    p.t0 + p.t1 * x + p.t2 * x * x
}

/// `T1` and `T2` open to the coefficients `t1` and `t2`.
pub open spec fn coefficients_open(p: CuproofView, g: int, h: int, n: int) -> bool {
    &&& spec_pedersen_commit(g, h, p.t1, p.tau1, n) == p.T1
    &&& spec_pedersen_commit(g, h, p.t2, p.tau2, n) == p.T2
}

/// The claimed evaluation is the value of the polynomial at `x`, as
/// integers: nothing is reduced.
pub open spec fn evaluation_consistent(p: CuproofView, x: int) -> bool {
    p.t_hat == spec_polynomial(p, x)
}

/// The commitments to the claimed evaluation and to the value of the
/// polynomial at `x`, both under `tau_x`, are the same.
pub open spec fn evaluation_commitments_match(
    p: CuproofView,
    g: int,
    h: int,
    n: int,
    x: int,
) -> bool {
    spec_pedersen_commit(g, h, p.t_hat, p.tau_x, n) == spec_pedersen_commit(
        g,
        h,
        spec_polynomial(p, x),
        p.tau_x,
        n,
    )
}

/// The recursive part has the shape expected: as many left as right
/// entries, one pair for each level.
pub open spec fn spec_ipp_shape(ipp: IppProofView) -> bool {
    &&& ipp.L.len() == ipp.R.len()
    &&& ipp.L.len() == IPP_LEVELS
}

/// None of the seven commitments is zero in the group.
pub open spec fn commitments_nonzero(p: CuproofView, n: int) -> bool {
    &&& trunc_rem(p.A, n) != 0
    &&& trunc_rem(p.S, n) != 0
    &&& trunc_rem(p.T1, n) != 0
    &&& trunc_rem(p.T2, n) != 0
    &&& trunc_rem(p.C, n) != 0
    &&& trunc_rem(p.C_v1, n) != 0
    &&& trunc_rem(p.C_v2, n) != 0
}

/// The three commitments to the value differ from one another.
pub open spec fn value_commitments_distinct(p: CuproofView) -> bool {
    &&& p.C != p.C_v1
    &&& p.C != p.C_v2
    &&& p.C_v1 != p.C_v2
}

/// Everything that verification asks of a proof once the challenge `x` is
/// known.
pub open spec fn spec_verify_relations(p: CuproofView, g: int, h: int, n: int, x: int) -> bool {
    &&& coefficients_open(p, g, h, n)
    &&& evaluation_consistent(p, x)
    &&& evaluation_commitments_match(p, g, h, n, x)
    &&& spec_ipp_shape(p.ipp_proof)
    &&& commitments_nonzero(p, n)
    &&& value_commitments_distinct(p)
}

/// The challenge `y`, derived from the five outer commitments.
pub open spec fn challenge_y(p: CuproofView, n: int) -> int {
    spec_challenge(seq![p.A, p.S, p.C, p.C_v1, p.C_v2], n)
}

/// The challenge `z`, derived from `y`.
pub open spec fn challenge_z(p: CuproofView, n: int) -> int {
    spec_challenge(seq![challenge_y(p, n)], n)
}

/// The challenge `x`, derived from the two polynomial commitments.
pub open spec fn challenge_x(p: CuproofView, n: int) -> int {
    spec_challenge(seq![p.T1, p.T2], n)
}

/// Whether a proof is accepted under the generators `g`, `h` and the modulus
/// `n`: the three challenges are not zero, and the relations hold at `x`.
pub open spec fn spec_verify(p: CuproofView, g: int, h: int, n: int) -> bool {
    &&& challenge_y(p, n) != 0
    &&& challenge_z(p, n) != 0
    &&& challenge_x(p, n) != 0
    &&& spec_verify_relations(p, g, h, n, challenge_x(p, n))
}

/// A hash reduced to a challenge in the group of modulus `n`. A challenge of
/// zero cannot be used, and `None` is returned for it.
pub fn reduce_challenge(hash: &Integer, n: &Integer) -> (r: Option<Integer>)
    requires
        n@ != 0,
    ensures
        match r {
            Some(c) => c@ == trunc_rem(hash@, n@) && c@ != 0,
            None => trunc_rem(hash@, n@) == 0,
        },
{
    let c = big_rem(hash, n);
    if c.is_zero() {
        None
    } else {
        Some(c)
    }
}

/// The challenge that `inputs` give in the group of modulus `n`, or `None`
/// where it is zero. A challenge is positive and below the magnitude of `n`.
pub fn derive_challenge(inputs: &[&Integer], n: &Integer) -> (r: Option<Integer>)
    requires
        n@ != 0,
    ensures
        match r {
            Some(c) => c@ == spec_challenge(values_of(inputs@), n@) && 0 < c@ < abs(n@),
            None => spec_challenge(values_of(inputs@), n@) == 0,
        },
{
    let hash = fiat_shamir(inputs);
    proof {
        lemma_trunc_rem_bounds(hash@, n@);
    }
    reduce_challenge(&hash, n)
}

/// Whether the recursive part of a proof has the expected shape. Only the
/// shape is looked at: what `L` and `R` hold is not.
pub fn ipp_shape_ok(ipp: &IppProof) -> (r: bool)
    ensures
        r == spec_ipp_shape(ipp@),
{
    if ipp.L.len() != ipp.R.len() {
        return false;
    }
    ipp.L.len() == IPP_LEVELS
}

/// Whether `c` is zero in the group of modulus `n`.
fn zero_in_group(c: &Integer, n: &Integer) -> (r: bool)
    requires
        n@ != 0,
    ensures
        r == (trunc_rem(c@, n@) == 0),
{
    big_rem(c, n).is_zero()
}

/// The checks that follow the challenges: whether the proof meets every
/// relation at the challenge `x`.
pub fn verify_relations(proof: &Cuproof, g: &Integer, h: &Integer, n: &Integer, x: &Integer) -> (r:
    bool)
    requires
        n@ != 0,
    ensures
        r == spec_verify_relations(proof@, g@, h@, n@, x@),
{
    // The commitments to the coefficients.
    if pedersen_commit(g, h, &proof.t1, &proof.tau1, n) != proof.T1 {
        return false;
    }
    if pedersen_commit(g, h, &proof.t2, &proof.tau2, n) != proof.T2 {
        return false;
    }
    // The claimed evaluation against t0 + t1 x + t2 x^2.
    let t1_x = big_mul(&proof.t1, x);
    let t2_x = big_mul(&proof.t2, x);
    let t2_x_x = big_mul(&t2_x, x);
    let rhs_t = big_add(&big_add(&proof.t0, &t1_x), &t2_x_x);
    if proof.t_hat != rhs_t {
        return false;
    }
    // The two commitments to the evaluation, under the same blinding factor.
    let lhs = pedersen_commit(g, h, &proof.t_hat, &proof.tau_x, n);
    let rhs = pedersen_commit(g, h, &rhs_t, &proof.tau_x, n);
    if lhs != rhs {
        return false;
    }
    // The shape of the recursive part.
    if !ipp_shape_ok(&proof.ipp_proof) {
        return false;
    }
    // No commitment is zero in the group.
    if zero_in_group(&proof.A, n) {
        return false;
    }
    if zero_in_group(&proof.S, n) {
        return false;
    }
    if zero_in_group(&proof.T1, n) {
        return false;
    }
    if zero_in_group(&proof.T2, n) {
        return false;
    }
    if zero_in_group(&proof.C, n) {
        return false;
    }
    if zero_in_group(&proof.C_v1, n) {
        return false;
    }
    if zero_in_group(&proof.C_v2, n) {
        return false;
    }
    // The commitments to the value differ.
    if proof.C == proof.C_v1 {
        return false;
    }
    if proof.C == proof.C_v2 {
        return false;
    }
    if proof.C_v1 == proof.C_v2 {
        return false;
    }
    true
}

/// Whether `proof` is accepted under the generators `g`, `h` and the modulus
/// `n`.
pub fn cuproof_verify(proof: &Cuproof, g: &Integer, h: &Integer, n: &Integer) -> (r: bool)
    requires
        n@ != 0,
    ensures
        r == spec_verify(proof@, g@, h@, n@),
{
    let outer = [&proof.A, &proof.S, &proof.C, &proof.C_v1, &proof.C_v2];
    assert(values_of(outer@) =~= seq![proof@.A, proof@.S, proof@.C, proof@.C_v1, proof@.C_v2]);
    let y = match derive_challenge(outer.as_slice(), n) {
        Some(y) => y,
        None => {
            return false;
        },
    };
    let inner = [&y];
    assert(values_of(inner@) =~= seq![y@]);
    if derive_challenge(inner.as_slice(), n).is_none() {
        return false;
    }
    let poly = [&proof.T1, &proof.T2];
    assert(values_of(poly@) =~= seq![proof@.T1, proof@.T2]);
    let x = match derive_challenge(poly.as_slice(), n) {
        Some(x) => x,
        None => {
            return false;
        },
    };
    verify_relations(proof, g, h, n, &x)
}

/// Whether `proof` is accepted under the generators `g`, `h` and the modulus
/// `n`. The bounds `a` and `b` are taken and not looked at: the answer is
/// that of `cuproof_verify`.
pub fn cuproof_verify_with_range(
    proof: &Cuproof,
    g: &Integer,
    h: &Integer,
    n: &Integer,
    _a: &Integer,
    _b: &Integer,
) -> (r: bool)
    requires
        n@ != 0,
    ensures
        r == spec_verify(proof@, g@, h@, n@),
{
    cuproof_verify(proof, g, h, n)
}

/// A proof whose claimed evaluation is not the value of its polynomial at
/// the challenge `x` is rejected.
pub proof fn lemma_wrong_evaluation_rejected(p: CuproofView, g: int, h: int, n: int)
    requires
        p.t_hat != p.t0 + p.t1 * challenge_x(p, n) + p.t2 * challenge_x(p, n) * challenge_x(p, n),
    ensures
        !spec_verify(p, g, h, n),
{
}

/// A proof whose commitment `C` equals `C_v1` is rejected, whatever its
/// other fields hold.
pub proof fn lemma_equal_value_commitments_rejected(p: CuproofView, g: int, h: int, n: int)
    requires
        p.C == p.C_v1,
    ensures
        !spec_verify(p, g, h, n),
{
}

/// A proof whose recursive part has lists of unequal length, or of a length
/// other than six, is rejected.
pub proof fn lemma_wrong_shape_rejected(p: CuproofView, g: int, h: int, n: int)
    requires
        p.ipp_proof.L.len() != p.ipp_proof.R.len() || p.ipp_proof.L.len() != 6
            || p.ipp_proof.R.len() != 6,
    ensures
        !spec_verify(p, g, h, n),
{
}

/// Once the claimed evaluation is the value of the polynomial, the two
/// commitments to them are the same: that check adds nothing to the one
/// before it.
pub proof fn lemma_evaluation_check_implied(p: CuproofView, g: int, h: int, n: int, x: int)
    requires
        evaluation_consistent(p, x),
    ensures
        evaluation_commitments_match(p, g, h, n, x),
{
}

} // verus!
