//! The mathematical model of the pass: what one wrapped sum is, what the
//! result sequence is, and the laws that both obey.

use vstd::prelude::*;

verus! {

/// The number of distinct values of an `i32`: two to the power of 32.
pub open spec fn modulus() -> int {
    0x1_0000_0000
}

/// The sum of `a` and `b` reduced modulo 2^32 into the range of `i32`.
pub open spec fn wrapped_sum(a: i32, b: i32) -> i32 {
    let residue = (a + b) % modulus();
    if residue > i32::MAX {
        (residue - modulus()) as i32
    } else {
        residue as i32
    }
}

/// The sequence that holds, at each index of `left`, the wrapped sum of the
/// elements of `left` and `right` at that index.
pub open spec fn elementwise_sum(left: Seq<i32>, right: Seq<i32>) -> Seq<i32> {
    Seq::new(left.len(), |i: int| wrapped_sum(left[i], right[i]))
}

/// The number of bytes that one sequence of `len` elements occupies, at four
/// bytes to the element.
pub open spec fn sequence_bytes(len: nat) -> nat {
    4 * len
}

/// A wrapped sum and the true sum leave the same remainder modulo 2^32.
pub proof fn lemma_wrapped_sum_congruent(a: i32, b: i32)
    ensures
        wrapped_sum(a, b) as int % modulus() == (a + b) % modulus(),
{
}

/// The wrapped sum is the only `i32` that leaves the same remainder modulo
/// 2^32 as the true sum.
pub proof fn lemma_wrapped_sum_unique(a: i32, b: i32, r: i32)
    requires
        r as int % modulus() == (a + b) % modulus(),
    ensures
        r == wrapped_sum(a, b),
{
}

/// Where the true sum fits in an `i32`, the wrapped sum is the true sum.
pub proof fn lemma_wrapped_sum_exact(a: i32, b: i32)
    requires
        i32::MIN <= a + b <= i32::MAX,
    ensures
        wrapped_sum(a, b) == a + b,
{
}

/// After a pass the result has the length of the inputs, and at every index
/// it leaves the same remainder modulo 2^32 as the true sum of the two inputs
/// at that index.
pub proof fn lemma_elementwise_sum_congruent(left: Seq<i32>, right: Seq<i32>)
    ensures
        elementwise_sum(left, right).len() == left.len(),
        forall|i: int|
            0 <= i < left.len() ==> (#[trigger] elementwise_sum(left, right)[i]) as int
                % modulus() == (left[i] + right[i]) % modulus(),
{
    assert forall|i: int| 0 <= i < left.len() implies (#[trigger] elementwise_sum(
        left,
        right,
    )[i]) as int % modulus() == (left[i] + right[i]) % modulus() by {
        lemma_wrapped_sum_congruent(left[i], right[i]);
    }
}

/// Two passes over the same inputs leave the same contents: the result is
/// determined by the inputs alone, not by what a result buffer held before.
pub proof fn lemma_pass_repeatable(
    left: Seq<i32>,
    right: Seq<i32>,
    first: Seq<i32>,
    second: Seq<i32>,
)
    requires
        first == elementwise_sum(left, right),
        second == elementwise_sum(left, right),
    ensures
        first == second,
{
}

} // verus!
