//! Challenges derived from a transcript of integers.
//!
//! The transcript is the decimal text of each integer, one after the other
//! with nothing between them. Its SHA-256 digest, read as an unsigned
//! big-endian number, is the challenge. The order of the inputs matters, and
//! the challenge is not reduced here: callers reduce it by the group modulus.

use crate::hash::{sha256, sha256_digest};
use crate::bigint::big_decimal;
use crate::encoding::{be_value, decimal_text};
use crate::integer::Integer;
use vstd::prelude::*;

verus! {

/// The values that a list of integers stands for.
pub open spec fn values_of(inputs: Seq<&Integer>) -> Seq<int> {
    inputs.map_values(|x: &Integer| x@)
}

/// The transcript of `values`: their decimal texts in order, not separated.
pub open spec fn spec_transcript(values: Seq<int>) -> Seq<u8>
    decreases values.len(),
{
    if values.len() == 0 {
        Seq::empty()
    } else {
        spec_transcript(values.drop_last()) + decimal_text(values.last())
    }
}

/// The challenge that `values` give: the digest of their transcript, read as
/// an unsigned big-endian number.
pub open spec fn spec_fiat_shamir(values: Seq<int>) -> int {
    be_value(sha256(spec_transcript(values))) as int
}

/// The bytes that are hashed for `inputs`.
pub fn transcript(inputs: &[&Integer]) -> (out: Vec<u8>)
    ensures
        out@ == spec_transcript(values_of(inputs@)),
{
    let ghost values = values_of(inputs@);
    let mut out: Vec<u8> = Vec::new();
    let mut i: usize = 0;
    while i < inputs.len()
        invariant
            i <= inputs.len(),
            values == values_of(inputs@),
            out@ == spec_transcript(values.take(i as int)),
        decreases inputs.len() - i,
    {
        let mut text = big_decimal(inputs[i]);
        out.append(&mut text);
        i += 1;
        proof {
            assert(values.take(i as int).drop_last() =~= values.take(i - 1));
        }
    }
    assert(values.take(i as int) =~= values);
    out
}

/// The challenge for `inputs`, in the order given.
pub fn fiat_shamir(inputs: &[&Integer]) -> (r: Integer)
    ensures
        r@ == spec_fiat_shamir(values_of(inputs@)),
        r@ >= 0,
{
    let bytes = transcript(inputs);
    let digest = sha256_digest(bytes.as_slice());
    Integer::from_bytes_be(false, digest.as_slice())
}

} // verus!
