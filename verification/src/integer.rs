//! Arbitrary-precision integers.
//!
//! An [`Integer`] holds a sign and a big-endian magnitude, and stands for the
//! mathematical integer given by its view. Building a value and reading it
//! (its sign, whether it is zero, whether two values are equal) is done and
//! proved here. Arithmetic on values is left to `num_bigint`, behind the
//! trusted functions of [`crate::bigint`].

use crate::encoding::{
    be_value, lemma_be_value_concat, lemma_be_value_injective, lemma_be_value_skip_zeros,
    lemma_be_value_unique, lemma_be_value_zero,
};
use vstd::arithmetic::power::*;
use vstd::prelude::*;

verus! {

/// An integer of any size.
///
/// The magnitude may carry leading zero bytes, and zero may carry either
/// sign: the view is the same for all of them.
#[derive(Debug)]
pub struct Integer {
    pub(crate) negative: bool,
    pub(crate) magnitude: Vec<u8>,
}

impl View for Integer {
    type V = int;

    closed spec fn view(&self) -> int {
        if self.negative {
            -(be_value(self.magnitude@) as int)
        } else {
            be_value(self.magnitude@) as int
        }
    }
}

/// The number of zero bytes at the front of `bytes`.
fn leading_zeros(bytes: &Vec<u8>) -> (k: usize)
    ensures
        k <= bytes.len(),
        forall|i: int| 0 <= i < k ==> bytes@[i] == 0,
        k < bytes.len() ==> bytes@[k as int] != 0,
{
    let mut k: usize = 0;
    while k < bytes.len() && bytes[k] == 0
        invariant
            k <= bytes.len(),
            forall|i: int| 0 <= i < k ==> bytes@[i] == 0,
        decreases bytes.len() - k,
    {
        k += 1;
    }
    k
}

/// Whether two magnitudes spell the same number, whatever zero bytes lead
/// them.
fn same_magnitude(a: &Vec<u8>, b: &Vec<u8>) -> (r: bool)
    ensures
        r == (be_value(a@) == be_value(b@)),
{
    let i = leading_zeros(a);
    let j = leading_zeros(b);
    let ghost sa = a@.skip(i as int);
    let ghost sb = b@.skip(j as int);
    proof {
        lemma_be_value_skip_zeros(a@, i as int);
        lemma_be_value_skip_zeros(b@, j as int);
    }
    if a.len() - i != b.len() - j {
        proof {
            if be_value(sa) == be_value(sb) {
                lemma_be_value_unique(sa, sb);
            }
        }
        return false;
    }
    let n = a.len() - i;
    let mut k: usize = 0;
    while k < n
        invariant
            k <= n,
            n == a.len() - i,
            n == b.len() - j,
            i <= a.len(),
            j <= b.len(),
            sa == a@.skip(i as int),
            sb == b@.skip(j as int),
            be_value(a@) == be_value(sa),
            be_value(b@) == be_value(sb),
            forall|m: int| 0 <= m < k ==> sa[m] == sb[m],
        decreases n - k,
    {
        if a[i + k] != b[j + k] {
            proof {
                assert(sa[k as int] != sb[k as int]);
                if be_value(sa) == be_value(sb) {
                    lemma_be_value_injective(sa, sb);
                }
            }
            return false;
        }
        k += 1;
    }
    assert(sa =~= sb);
    true
}

impl Integer {
    /// The non-negative integer that `bytes` spell, most significant byte
    /// first; its negation where `negative` is set.
    pub fn from_bytes_be(negative: bool, bytes: &[u8]) -> (r: Integer)
        ensures
            r@ == if negative {
                -(be_value(bytes@) as int)
            } else {
                be_value(bytes@) as int
            },
    {
        let mut magnitude: Vec<u8> = Vec::new();
        let mut i: usize = 0;
        while i < bytes.len()
            invariant
                i <= bytes.len(),
                magnitude@ == bytes@.subrange(0, i as int),
            decreases bytes.len() - i,
        {
            magnitude.push(bytes[i]);
            i += 1;
            assert(magnitude@ =~= bytes@.subrange(0, i as int));
        }
        assert(magnitude@ =~= bytes@);
        Integer { negative, magnitude }
    }

    /// The integer `v`.
    pub fn from_u64(v: u64) -> (r: Integer)
        ensures
            r@ == v,
    {
        let mut magnitude: Vec<u8> = Vec::new();
        let mut rest: u64 = v;
        proof {
            lemma_pow0(256);
        }
        while rest > 0
            invariant
                v == rest * pow(256, magnitude@.len()) + be_value(magnitude@),
            decreases rest,
        {
            let digit: u8 = (rest % 256) as u8;
            let ghost low = magnitude@;
            let ghost weight = pow(256, low.len());
            magnitude.insert(0, digit);
            proof {
                assert(magnitude@ =~= seq![digit] + low);
                lemma_be_value_concat(seq![digit], low);
                assert(seq![digit].drop_last() =~= Seq::<u8>::empty());
                assert(be_value(seq![digit]) == digit as nat) by {
                    reveal_with_fuel(be_value, 2);
                }
                assert(pow(256, magnitude@.len()) == 256 * weight) by {
                    reveal(pow);
                }
                assert(rest * weight == (rest / 256) * (256 * weight) + digit * weight)
                    by (nonlinear_arith)
                    requires
                        rest == (rest / 256) * 256 + digit,
                ;
            }
            rest = rest / 256;
        }
        Integer { negative: false, magnitude }
    }

    /// The integer `v`.
    pub fn from_i64(v: i64) -> (r: Integer)
        ensures
            r@ == v,
    {
        if v >= 0 {
            Integer::from_u64(v as u64)
        } else {
            let size: u64 = (-(v + 1)) as u64 + 1;
            Integer::from_u64(size).neg()
        }
    }

    /// Zero.
    pub fn zero() -> (r: Integer)
        ensures
            r@ == 0,
    {
        Integer { negative: false, magnitude: Vec::new() }
    }

    /// Whether the value is zero.
    pub fn is_zero(&self) -> (r: bool)
        ensures
            r == (self@ == 0),
    {
        let mut i: usize = 0;
        while i < self.magnitude.len()
            invariant
                i <= self.magnitude.len(),
                forall|k: int| 0 <= k < i ==> self.magnitude@[k] == 0,
            decreases self.magnitude.len() - i,
        {
            if self.magnitude[i] != 0 {
                proof {
                    lemma_be_value_zero(self.magnitude@);
                }
                return false;
            }
            i += 1;
        }
        proof {
            lemma_be_value_zero(self.magnitude@);
        }
        true
    }

    /// Whether the value is below zero.
    pub fn is_negative(&self) -> (r: bool)
        ensures
            r == (self@ < 0),
    {
        self.negative && !self.is_zero()
    }

    /// The value with its sign reversed.
    pub fn neg(&self) -> (r: Integer)
        ensures
            r@ == -self@,
    {
        Integer { negative: !self.negative, magnitude: self.magnitude.clone() }
    }

    /// The sign and the magnitude of the value. The flag is set for a value
    /// below zero. The bytes spell the absolute value, most significant
    /// first and without a leading zero byte, so zero has no bytes at all.
    pub fn to_bytes_be(&self) -> (r: (bool, Vec<u8>))
        ensures
            r.0 == (self@ < 0),
            be_value(r.1@) == vstd::math::abs(self@),
            r.1@.len() > 0 ==> r.1@[0] != 0,
    {
        let start = leading_zeros(&self.magnitude);
        let mut bytes: Vec<u8> = Vec::new();
        let mut i: usize = start;
        while i < self.magnitude.len()
            invariant
                start <= i <= self.magnitude.len(),
                bytes@ == self.magnitude@.subrange(start as int, i as int),
            decreases self.magnitude.len() - i,
        {
            bytes.push(self.magnitude[i]);
            i += 1;
            assert(bytes@ =~= self.magnitude@.subrange(start as int, i as int));
        }
        proof {
            assert(bytes@ =~= self.magnitude@.skip(start as int));
            lemma_be_value_skip_zeros(self.magnitude@, start as int);
        }
        (self.is_negative(), bytes)
    }

    /// Whether two integers have the same value.
    pub fn equals(&self, other: &Integer) -> (r: bool)
        ensures
            r == (self@ == other@),
    {
        let same = same_magnitude(&self.magnitude, &other.magnitude);
        if self.negative == other.negative {
            same
        } else {
            // Opposite signs: equal only where both are zero.
            same && self.is_zero()
        }
    }
}

impl PartialEq for Integer {
    fn eq(&self, other: &Integer) -> (r: bool) {
        self.equals(other)
    }
}

impl vstd::std_specs::cmp::PartialEqSpecImpl for Integer {
    open spec fn obeys_eq_spec() -> bool {
        true
    }

    open spec fn eq_spec(&self, other: &Integer) -> bool {
        self@ == other@
    }
}

impl Clone for Integer {
    fn clone(&self) -> (r: Integer)
        ensures
            r@ == self@,
    {
        Integer { negative: self.negative, magnitude: self.magnitude.clone() }
    }
}

} // verus!
