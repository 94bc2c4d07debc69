//! Reading one coordinate out of a run of samples.

use vstd::prelude::*;

verus! {

/// The `dim`-th coordinate of every sample, in order: the one-dimensional
/// trace of a chain (`dim == 0`), or the values of one momentum component
/// across the recorded momenta.
pub fn coordinates<T: Copy>(samples: &[Vec<T>], dim: usize) -> (column: Vec<T>)
    requires
        forall|i: int| 0 <= i < samples@.len() ==> dim < (#[trigger] samples@[i])@.len(),
    ensures
        column@.len() == samples@.len(),
        forall|i: int| 0 <= i < samples@.len() ==> #[trigger] column@[i] == samples@[i]@[dim as int],
{
    let mut column: Vec<T> = Vec::new();
    let mut i: usize = 0;
    while i < samples.len()
        invariant
            i <= samples@.len(),
            forall|k: int| 0 <= k < samples@.len() ==> dim < (#[trigger] samples@[k])@.len(),
            column@.len() == i,
            forall|k: int| 0 <= k < i ==> #[trigger] column@[k] == samples@[k]@[dim as int],
        decreases samples@.len() - i,
    {
        let value = samples[i][dim];
        column.push(value);
        i = i + 1;
    }
    column
}

} // verus!
