//! Small demonstrations of building fixed-size and growable collections of
//! owned values, references, and boxed values.

use vstd::prelude::*;

verus! {

/// Builds arrays and vectors of owned values, of references, and of boxed
/// values, and checks the shapes they end with.
pub fn demo() {
    let x: u64 = 1;
    let y: u64 = 2;

    // An array of instances.
    let owned: [u64; 2] = [x, y];

    // A fully formed array of references.
    let borrowed: [&u64; 2] = [&x, &y];

    // A vector of references, built all at once.
    let at_once: Vec<&u64> = vec![&x, &y];
    assert(at_once@.len() == 2);

    // A vector of references, built incrementally.
    let mut incremental: Vec<&u64> = Vec::new();
    incremental.push(&x);
    incremental.push(&y);
    assert(incremental@ == at_once@);

    // The same, with its size known ahead of time.
    let mut sized: Vec<&u64> = Vec::with_capacity(2);
    sized.push(&x);
    sized.push(&y);
    assert(sized@ == incremental@);

    // A scattering of references among empty slots.
    let mut scattered: Vec<Option<&u64>> = vec![None; 10];
    scattered[2] = Some(&x);
    scattered[5] = Some(&y);
    scattered[6] = Some(&y);
    assert(scattered@[2] == Some(&x));
    assert(scattered@[0] is None);

    // The elements themselves allocated on the heap.
    let mut heap: Vec<Option<Box<u64>>> = vec![None, None, None, None, None, None, None, None, None, None];
    heap[2] = Some(Box::new(7));
    heap[5] = Some(Box::new(3));
    assert(heap@.len() == 10);
}

} // verus!
