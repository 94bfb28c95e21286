//! How numbers are spelled: as bytes in base 256, and as decimal text.

use vstd::arithmetic::power::*;
use vstd::prelude::*;

verus! {

/// The number that `bytes` spell in base 256, most significant byte first.
/// Leading zero bytes do not change it, and the empty sequence spells zero.
pub open spec fn be_value(bytes: Seq<u8>) -> nat
    decreases bytes.len(),
{
    if bytes.len() == 0 {
        0
    } else {
        be_value(bytes.drop_last()) * 256 + bytes.last() as nat
    }
}

/// The decimal digits of `n`, most significant first, as ASCII bytes: a single
/// `0` for zero, and no leading zero otherwise.
pub open spec fn decimal_digits(n: nat) -> Seq<u8>
    decreases n,
{
    if n < 10 {
        seq![(48 + n) as u8]
    } else {
        decimal_digits(n / 10).push((48 + n % 10) as u8)
    }
}

/// The text of `v` in base 10, as ASCII bytes: its decimal digits, behind a
/// minus sign where `v` is below zero.
pub open spec fn decimal_text(v: int) -> Seq<u8> {
    if v < 0 {
        seq![45u8] + decimal_digits((-v) as nat)
    } else {
        decimal_digits(v as nat)
    }
}

/// A sequence of zero bytes spells zero, and only such a sequence does.
pub proof fn lemma_be_value_zero(bytes: Seq<u8>)
    ensures
        be_value(bytes) == 0 <==> forall|i: int| 0 <= i < bytes.len() ==> bytes[i] == 0,
    decreases bytes.len(),
{
    if bytes.len() > 0 {
        let init = bytes.drop_last();
        lemma_be_value_zero(init);
        if be_value(bytes) == 0 {
            assert forall|i: int| 0 <= i < bytes.len() implies bytes[i] == 0 by {
                if i < init.len() {
                    assert(init[i] == bytes[i]);
                }
            }
        }
        if forall|i: int| 0 <= i < bytes.len() ==> bytes[i] == 0 {
            assert forall|i: int| 0 <= i < init.len() implies init[i] == 0 by {
                assert(init[i] == bytes[i]);
            }
        }
    }
}

/// Appending bytes shifts the value spelled so far to the left.
pub proof fn lemma_be_value_concat(front: Seq<u8>, back: Seq<u8>)
    ensures
        be_value(front + back) == be_value(front) * pow(256, back.len()) + be_value(back),
    decreases back.len(),
{
    if back.len() == 0 {
        assert(front + back =~= front);
        lemma_pow0(256);
    } else {
        let init = back.drop_last();
        assert((front + back).drop_last() =~= front + init);
        lemma_be_value_concat(front, init);
        let p = pow(256, init.len());
        assert(pow(256, back.len()) == 256 * p) by {
            reveal(pow);
        }
        assert((be_value(front) * p + be_value(init)) * 256 == be_value(front) * (256 * p)
            + be_value(init) * 256) by (nonlinear_arith);
    }
}

/// A number spelled with `bytes.len()` bytes is below `256` to that power.
pub proof fn lemma_be_value_upper(bytes: Seq<u8>)
    ensures
        be_value(bytes) < pow(256, bytes.len()),
    decreases bytes.len(),
{
    if bytes.len() == 0 {
        lemma_pow0(256);
    } else {
        let init = bytes.drop_last();
        lemma_be_value_upper(init);
        assert(pow(256, bytes.len()) == 256 * pow(256, init.len())) by {
            reveal(pow);
        }
    }
}

/// Leading zero bytes can be dropped without changing the number spelled.
pub proof fn lemma_be_value_skip_zeros(bytes: Seq<u8>, k: int)
    requires
        0 <= k <= bytes.len(),
        forall|i: int| 0 <= i < k ==> bytes[i] == 0,
    ensures
        be_value(bytes) == be_value(bytes.skip(k)),
{
    let front = bytes.take(k);
    let back = bytes.skip(k);
    assert(bytes =~= front + back);
    lemma_be_value_concat(front, back);
    lemma_be_value_zero(front);
    assert(be_value(front) * pow(256, back.len()) == 0) by (nonlinear_arith)
        requires
            be_value(front) == 0,
    ;
}

/// A number whose first byte is not zero is at least `256` to the number of
/// bytes that follow it.
pub proof fn lemma_be_value_lower(bytes: Seq<u8>)
    requires
        bytes.len() > 0,
        bytes[0] != 0,
    ensures
        be_value(bytes) >= pow(256, (bytes.len() - 1) as nat),
{
    let front = bytes.take(1);
    let back = bytes.skip(1);
    assert(bytes =~= front + back);
    lemma_be_value_concat(front, back);
    assert(front.drop_last() =~= Seq::<u8>::empty());
    assert(be_value(front) == bytes[0] as nat) by {
        reveal_with_fuel(be_value, 2);
    }
    lemma_pow_positive(256, back.len());
    assert(be_value(front) * pow(256, back.len()) >= pow(256, back.len())) by (nonlinear_arith)
        requires
            be_value(front) >= 1,
            pow(256, back.len()) > 0,
    ;
}

/// Two byte sequences of one length that spell the same number are equal.
pub proof fn lemma_be_value_injective(a: Seq<u8>, b: Seq<u8>)
    requires
        a.len() == b.len(),
        be_value(a) == be_value(b),
    ensures
        a == b,
    decreases a.len(),
{
    if a.len() > 0 {
        lemma_be_value_injective(a.drop_last(), b.drop_last());
        assert(a =~= a.drop_last().push(a.last()));
        assert(b =~= b.drop_last().push(b.last()));
    }
    assert(a =~= b);
}

/// A number has one spelling without a leading zero byte: two such byte
/// sequences that spell the same number are equal.
pub proof fn lemma_be_value_unique(a: Seq<u8>, b: Seq<u8>)
    requires
        a.len() > 0 ==> a[0] != 0,
        b.len() > 0 ==> b[0] != 0,
        be_value(a) == be_value(b),
    ensures
        a == b,
{
    lemma_be_value_upper(a);
    lemma_be_value_upper(b);
    if a.len() < b.len() {
        lemma_be_value_lower(b);
        lemma_pow_increases(256, a.len(), (b.len() - 1) as nat);
    } else if b.len() < a.len() {
        lemma_be_value_lower(a);
        lemma_pow_increases(256, b.len(), (a.len() - 1) as nat);
    } else {
        lemma_be_value_injective(a, b);
    }
}

} // verus!
