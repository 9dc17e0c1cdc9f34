//! Column-major matrices over the vector type.

use crate::math::vector::Vector;
use vstd::prelude::*;

verus! {

/// A matrix of `C` columns, each an `R`-dimensional vector, viewed as
/// the sequence of its columns.
pub struct Matrix<T, const C: usize, const R: usize> {
    v: [Vector<T, R>; C],
}

impl<T, const C: usize, const R: usize> View for Matrix<T, C, R> {
    type V = Seq<Vector<T, R>>;

    closed spec fn view(&self) -> Seq<Vector<T, R>> {
        self.v@
    }
}

impl<T, const C: usize, const R: usize> From<[Vector<T, R>; C]> for Matrix<T, C, R> {
    /// Wraps a fixed-size array of columns as a matrix.
    fn from(v: [Vector<T, R>; C]) -> (r: Self)
        ensures
            r@ == v@,
    {
        Matrix { v }
    }
}

impl<T, const C: usize, const R: usize> vstd::std_specs::convert::FromSpecImpl<[Vector<T, R>; C]> for Matrix<T, C, R> {
    open spec fn obeys_from_spec() -> bool {
        true
    }

    closed spec fn from_spec(v: [Vector<T, R>; C]) -> Self {
        Matrix { v }
    }
}

} // verus!
