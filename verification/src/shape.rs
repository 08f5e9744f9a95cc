use vstd::prelude::*;

use crate::layout::{all_positive, LayoutError};

verus! {

/// An ordered sequence of strictly positive dimension sizes, immutable after
/// construction. The rank is the number of dimensions; the empty shape is
/// accepted and describes a single element. A `Shape` is plain data: it may
/// be cloned freely, independently of any buffer built from it.
pub struct Shape {
    dims: Vec<usize>,
}

impl View for Shape {
    type V = Seq<usize>;

    closed spec fn view(&self) -> Seq<usize> {
        self.dims@
    }
}

impl Shape {
    /// Every dimension size is strictly positive.
    pub open spec fn wf(&self) -> bool {
        all_positive(self@)
    }

    /// Builds a shape from the given dimension sizes, rejecting any sequence
    /// that contains a zero.
    pub fn new(dims: Vec<usize>) -> (r: Result<Shape, LayoutError>)
        ensures
            match r {
                Ok(s) => s@ == dims@ && s.wf(),
                Err(e) => e == LayoutError::ZeroDimension && !all_positive(dims@),
            },
    {
        let mut i: usize = 0;
        while i < dims.len()
            invariant
                0 <= i <= dims@.len(),
                forall|j: int| 0 <= j < i ==> dims@[j] > 0,
            decreases dims@.len() - i,
        {
            if dims[i] == 0 {
                return Err(LayoutError::ZeroDimension);
            }
            i = i + 1;
        }
        Ok(Shape { dims })
    }

    /// The number of dimensions.
    pub fn rank(&self) -> (r: usize)
        ensures
            r == self@.len(),
    {
        self.dims.len()
    }

    /// The dimension sizes, in order.
    pub fn dims(&self) -> (d: &Vec<usize>)
        ensures
            d@ == self@,
    {
        &self.dims
    }

    /// The size of the dimension at `i`.
    pub fn dim(&self, i: usize) -> (d: usize)
        requires
            i < self@.len(),
        ensures
            d == self@[i as int],
    {
        self.dims[i]
    }
}

impl Clone for Shape {
    /// A clone carries exactly the same dimension sizes.
    fn clone(&self) -> (r: Self)
        ensures
            r@ == self@,
    {
        Shape { dims: self.dims.clone() }
    }
}

} // verus!
