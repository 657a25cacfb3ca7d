//! The reported density curve: one element per loss value of the output grid.

use vstd::prelude::*;

verus! {

/// Number of loss values at which a density is reported. It does not depend
/// on how finely the characteristic function was sampled.
pub const NUM_X: usize = 512;

/// One point of a density curve: the density found at a loss value.
///
/// `T` is the type of a sample, a floating-point number in the service.
/// Nothing here computes with samples; they are only put in place.
#[derive(Debug, PartialEq)]
pub struct Element<T> {
    pub density: T,
    pub at_point: T,
}

/// The curve that holds, index for index, each density next to the loss
/// value it belongs to. It stops where the shorter of the two runs out.
pub open spec fn paired<T>(density: Seq<T>, at_point: Seq<T>) -> Seq<Element<T>> {
    Seq::new(
        if density.len() <= at_point.len() { density.len() } else { at_point.len() },
        |i: int| Element { density: density[i], at_point: at_point[i] },
    )
}

/// Lays densities and loss values out as a curve, in the order given.
pub fn pair_elements<T: Copy>(density: &[T], at_point: &[T]) -> (curve: Vec<Element<T>>)
    ensures
        curve@ == paired(density@, at_point@),
{
    let n: usize = if density.len() <= at_point.len() { density.len() } else { at_point.len() };
    let mut curve: Vec<Element<T>> = Vec::with_capacity(n);
    let mut i: usize = 0;
    while i < n
        invariant
            i <= n,
            n <= density@.len(),
            n <= at_point@.len(),
            curve@.len() == i,
            forall|k: int| 0 <= k < i ==> curve@[k] == paired(density@, at_point@)[k],
        decreases n - i,
    {
        curve.push(Element { density: density[i], at_point: at_point[i] });
        i = i + 1;
    }
    assert(curve@ =~= paired(density@, at_point@));
    curve
}

/// A curve built over the whole output grid has one element per grid point,
/// and its loss values are those of the grid, in the grid's order.
pub proof fn lemma_full_grid_curve<T>(density: Seq<T>, at_point: Seq<T>)
    requires
        density.len() == NUM_X,
        at_point.len() == NUM_X,
    ensures
        paired(density, at_point).len() == NUM_X,
        forall|i: int|
            0 <= i < NUM_X ==> (#[trigger] paired(density, at_point)[i]).at_point == at_point[i],
{
}

} // verus!
