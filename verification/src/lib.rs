//! Element-wise addition of two `i32` sequences into a third, as a single
//! full-length pass, together with the byte accounting of that pass.

use vstd::prelude::*;

pub mod model;

use crate::model::{elementwise_sum, sequence_bytes, wrapped_sum};

verus! {

/// The width of one element of a sequence, in bytes.
pub const ELEMENT_BYTES: u128 = 4;

/// Adds `array0` and `array1` element by element into `array2`, wrapping on
/// overflow.
///
/// The three sequences must have one common length. Every element of `array2`
/// is overwritten, so its previous contents do not matter. A common length of
/// zero is accepted: the pass is then empty and nothing is read or written.
pub fn perf(array0: &[i32], array1: &[i32], array2: &mut [i32])
    requires
        array0@.len() == array1@.len(),
        array0@.len() == old(array2)@.len(),
    ensures
        final(array2)@ == elementwise_sum(array0@, array1@),
        array0@.len() == 0 ==> final(array2)@ == old(array2)@,
{
    let n: usize = array0.len();
    let mut i: usize = 0;
    while i < n
        invariant
            i <= n,
            n == array0@.len(),
            n == array1@.len(),
            n == array2@.len(),
            forall|j: int|
                0 <= j < i ==> #[trigger] array2@[j] == wrapped_sum(array0@[j], array1@[j]),
        decreases n - i,
    {
        array2[i] = array0[i].wrapping_add(array1[i]);
        i += 1;
    }
}

/// The number of bytes that a pass over sequences of `len` elements is
/// counted as moving: the width of one sequence. The two sequences read and
/// the one written are not added up.
pub fn counted_bytes(len: usize) -> (bytes: u128)
    ensures
        bytes == sequence_bytes(len as nat),
{
    ELEMENT_BYTES * (len as u128)
}

} // verus!
