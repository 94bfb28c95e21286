//! Integer operations that the contracts of this crate are stated over.
//!
//! Verus' own `%` on `int` is the Euclidean remainder. The two remainders
//! used by the group arithmetic round differently, so each gets a name here.

use vstd::arithmetic::div_mod::*;
use vstd::math::abs;
use vstd::prelude::*;

verus! {

/// Remainder of a division that rounds towards zero: the result has the sign
/// of the dividend `a` and a magnitude below that of the divisor `b`.
pub open spec fn trunc_rem(a: int, b: int) -> int
    recommends
        b != 0,
{
    if a >= 0 {
        a % (abs(b) as int)
    } else {
        -((-a) % (abs(b) as int))
    }
}

/// Remainder of a division that rounds towards negative infinity: the result
/// has the sign of the modulus `m`, so it lies in `[0, m)` for a positive `m`
/// and in `(m, 0]` for a negative one.
pub open spec fn floor_mod(a: int, m: int) -> int
    recommends
        m != 0,
{
    if m > 0 {
        a % m
    } else if a % (-m) == 0 {
        0
    } else {
        a % (-m) + m
    }
}

/// `trunc_rem` keeps the sign of the dividend and stays below the divisor.
pub proof fn lemma_trunc_rem_bounds(a: int, b: int)
    requires
        b != 0,
    ensures
        a >= 0 ==> 0 <= trunc_rem(a, b) < abs(b),
        a <= 0 ==> -abs(b) < trunc_rem(a, b) <= 0,
{
    let n = abs(b) as int;
    if a >= 0 {
        lemma_mod_bound(a, n);
    }
    if a <= 0 {
        lemma_mod_bound(-a, n);
    }
    if a == 0 {
        lemma_small_mod(0, n as nat);
    }
}

/// `floor_mod` takes the sign of the modulus and stays below it in magnitude.
pub proof fn lemma_floor_mod_bounds(a: int, m: int)
    requires
        m != 0,
    ensures
        m > 0 ==> 0 <= floor_mod(a, m) < m,
        m < 0 ==> m < floor_mod(a, m) <= 0,
{
    if m > 0 {
        lemma_mod_bound(a, m);
    } else {
        lemma_mod_bound(a, -m);
    }
}

/// `floor_mod(a, m)` differs from `a` by a multiple of `m`: reduced once more
/// by the magnitude of `m`, both leave the same Euclidean remainder.
pub proof fn lemma_floor_mod_congruent(a: int, m: int)
    requires
        m != 0,
    ensures
        floor_mod(a, m) % (abs(m) as int) == a % (abs(m) as int),
{
    let n = abs(m) as int;
    lemma_mod_twice(a, n);
    if m < 0 {
        if a % n == 0 {
            lemma_small_mod(0, n as nat);
        } else {
            // (a % n) - n leaves the same remainder as a % n.
            lemma_mod_sub_multiples_vanish(a % n, n);
        }
    }
}

} // verus!
