//! Making vectors whose elements cannot be cloned.

use vstd::prelude::*;

verus! {

/// A vector of `size` elements, each the result of one call of `init`.
/// It serves where the element type has no `Clone`.
pub fn new_vec<T, F: Fn() -> T>(init: F, size: usize) -> (data: Vec<T>)
    requires
        call_requires(init, ()),
    ensures
        data@.len() == size,
        forall|i: int| 0 <= i < size ==> call_ensures(init, (), #[trigger] data@[i]),
{
    let mut data: Vec<T> = Vec::with_capacity(size);
    let mut n: usize = 0;
    while n < size
        invariant
            n <= size,
            call_requires(init, ()),
            data@.len() == n,
            forall|i: int| 0 <= i < n ==> call_ensures(init, (), #[trigger] data@[i]),
        decreases size - n,
    {
        data.push(init());
        n = n + 1;
    }
    data
}

} // verus!
