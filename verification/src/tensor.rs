use vstd::prelude::*;

use crate::element::{ElementKind, MatrixElement};
use crate::layout::{
    all_positive, layout_fits, logical_count_of, padded8, padded_count_of, product,
    lemma_padded8_least, lemma_product_positive, LayoutError,
};
use crate::shape::Shape;

verus! {

/// The alignment, in bytes, requested for every tensor buffer, chosen to
/// satisfy the widest SIMD register width the library targets.
pub const BUFFER_ALIGN: usize = 32;

/// Owns exactly one contiguous allocation holding elements of one
/// [`ElementKind`], sized from a [`Shape`]. The buffer holds
/// `padded_count * element size` bytes, where `padded_count` is the logical
/// element count rounded up to the next multiple of 8 so that vectorized
/// loops processing 8 elements per step never run past the end. The
/// allocation has exactly one owner and is released exactly once, when the
/// `Tensor` is dropped; the shape and the counts never change after
/// construction.
pub struct Tensor {
    shape: Shape,
    kind: ElementKind,
    nelement: usize,
    padded_nelement: usize,
    data: Vec<u8>,
}

impl Tensor {
    /// The dimension sizes of the shape the buffer was built from.
    pub closed spec fn dims_spec(&self) -> Seq<usize> {
        self.shape@
    }

    /// The element kind the buffer was built for.
    pub closed spec fn element_spec(&self) -> ElementKind {
        self.kind
    }

    /// The number of meaningful elements: the product of the dimensions.
    pub closed spec fn logical_count_spec(&self) -> int {
        self.nelement as int
    }

    /// The number of element slots physically allocated.
    pub closed spec fn padded_count_spec(&self) -> int {
        self.padded_nelement as int
    }

    /// The size of the owned allocation, in bytes.
    pub closed spec fn byte_size_spec(&self) -> int {
        self.data@.len() as int
    }

    /// The layout invariant every constructed tensor satisfies: positive
    /// dimensions, the logical count is their product, the padded count is
    /// the logical count rounded up to the next multiple of 8, and the
    /// buffer holds exactly `padded_count * element size` bytes.
    pub open spec fn wf(&self) -> bool {
        &&& all_positive(self.dims_spec())
        &&& self.logical_count_spec() == product(self.dims_spec())
        &&& self.padded_count_spec() == padded8(self.logical_count_spec())
        &&& self.byte_size_spec() == self.padded_count_spec() * self.element_spec().size_spec()
    }

    /// Allocates a tensor buffer for the given dimension sizes and element
    /// kind. Rejects a shape with a zero dimension, and a layout whose
    /// padded count or byte size does not fit in a machine word; otherwise
    /// the returned tensor satisfies the full layout invariant.
    pub fn new(dims: Vec<usize>, kind: ElementKind) -> (r: Result<Tensor, LayoutError>)
        ensures
            match r {
                Ok(t) => {
                    &&& all_positive(dims@)
                    &&& layout_fits(dims@, kind)
                    &&& t.wf()
                    &&& t.dims_spec() == dims@
                    &&& t.element_spec() == kind
                },
                Err(e) => {
                    ||| (e == LayoutError::ZeroDimension && !all_positive(dims@))
                    ||| (e == LayoutError::SizeOverflow && all_positive(dims@) && !layout_fits(
                        dims@,
                        kind,
                    ))
                },
            },
    {
        let shape = match Shape::new(dims) {
            Ok(s) => s,
            Err(e) => {
                return Err(e);
            },
        };
        Tensor::from_shape(shape, kind)
    }

    /// Allocates a tensor buffer for an already validated shape. The shape's
    /// invariant guards the element-count computation, so the only failure
    /// left is a layout that does not fit in a machine word.
    pub fn from_shape(shape: Shape, kind: ElementKind) -> (r: Result<Tensor, LayoutError>)
        requires
            shape.wf(),
        ensures
            match r {
                Ok(t) => {
                    &&& layout_fits(shape@, kind)
                    &&& t.wf()
                    &&& t.dims_spec() == shape@
                    &&& t.element_spec() == kind
                },
                Err(e) => e == LayoutError::SizeOverflow && !layout_fits(shape@, kind),
            },
    {
        let ghost gdims = shape@;
        let nelement = match logical_count_of(shape.dims()) {
            Some(c) => c,
            None => {
                proof {
                    lemma_no_fit_when_count_large(gdims, kind);
                }
                return Err(LayoutError::SizeOverflow);
            },
        };
        let padded_nelement = match padded_count_of(nelement) {
            Some(p) => p,
            None => {
                proof {
                    lemma_no_fit_when_padded_large(gdims, kind);
                }
                return Err(LayoutError::SizeOverflow);
            },
        };
        let size = match padded_nelement.checked_mul(kind.size_in_bytes()) {
            Some(b) => b,
            None => {
                return Err(LayoutError::SizeOverflow);
            },
        };
        let mut data: Vec<u8> = Vec::new();
        let mut k: usize = 0;
        while k < size
            invariant
                0 <= k <= size,
                data@.len() == k,
            decreases size - k,
        {
            data.push(0u8);
            k = k + 1;
        }
        Ok(Tensor { shape, kind, nelement, padded_nelement, data })
    }

    /// Allocates a tensor buffer for the given dimension sizes, typed per
    /// the capability-qualifying element type `T`.
    pub fn new_for<T: MatrixElement>(dims: Vec<usize>) -> (r: Result<Tensor, LayoutError>)
        ensures
            match r {
                Ok(t) => {
                    &&& all_positive(dims@)
                    &&& layout_fits(dims@, T::kind_spec())
                    &&& t.wf()
                    &&& t.dims_spec() == dims@
                    &&& t.element_spec() == T::kind_spec()
                },
                Err(e) => {
                    ||| (e == LayoutError::ZeroDimension && !all_positive(dims@))
                    ||| (e == LayoutError::SizeOverflow && all_positive(dims@) && !layout_fits(
                        dims@,
                        T::kind_spec(),
                    ))
                },
            },
    {
        Tensor::new(dims, T::kind())
    }

    /// The shape the buffer was built from.
    pub fn shape(&self) -> (s: &Shape)
        ensures
            s@ == self.dims_spec(),
    {
        &self.shape
    }

    /// The element kind the buffer was built for.
    pub fn element_kind(&self) -> (k: ElementKind)
        ensures
            k == self.element_spec(),
    {
        self.kind
    }

    /// The number of meaningful elements.
    pub fn logical_count(&self) -> (c: usize)
        ensures
            c == self.logical_count_spec(),
    {
        self.nelement
    }

    /// The number of element slots physically allocated.
    pub fn padded_count(&self) -> (c: usize)
        ensures
            c == self.padded_count_spec(),
    {
        self.padded_nelement
    }

    /// The size of the owned allocation, in bytes.
    pub fn byte_size(&self) -> (s: usize)
        ensures
            s == self.byte_size_spec(),
    {
        self.data.len()
    }

    /// The owned allocation itself; future kernels read its base address and
    /// the padded count from here.
    pub fn buffer(&self) -> (b: &Vec<u8>)
        ensures
            b@.len() == self.byte_size_spec(),
    {
        &self.data
    }

    /// The alignment recorded for the allocation request.
    pub fn alignment(&self) -> (a: usize)
        ensures
            a == BUFFER_ALIGN,
    {
        BUFFER_ALIGN
    }
}

/// A logical count too large for a machine word leaves no representable
/// layout for any element kind.
proof fn lemma_no_fit_when_count_large(dims: Seq<usize>, kind: ElementKind)
    requires
        all_positive(dims),
        product(dims) > usize::MAX,
    ensures
        !layout_fits(dims, kind),
{
    lemma_product_positive(dims);
    lemma_padded8_least(product(dims));
    lemma_scale_keeps_large(padded8(product(dims)), kind.size_spec());
}

/// A padded count too large for a machine word leaves no representable
/// layout for any element kind.
proof fn lemma_no_fit_when_padded_large(dims: Seq<usize>, kind: ElementKind)
    requires
        all_positive(dims),
        padded8(product(dims)) > usize::MAX,
    ensures
        !layout_fits(dims, kind),
{
    lemma_scale_keeps_large(padded8(product(dims)), kind.size_spec());
}

/// Scaling a count beyond `usize::MAX` by a positive element width keeps it
/// beyond `usize::MAX`.
proof fn lemma_scale_keeps_large(a: int, b: int)
    requires
        a > usize::MAX,
        b >= 1,
    ensures
        a * b > usize::MAX,
{
    let bound = usize::MAX as int;
    assert(a * b > bound) by (nonlinear_arith)
        requires
            a > bound,
            b >= 1,
            bound >= 0,
    ;
}

/// Law: every well-formed tensor's logical count is the product of its
/// dimensions and is at least 1; its padded count is the smallest multiple
/// of 8 that is at least the logical count; and its allocation holds exactly
/// `padded_count * element size` bytes.
pub proof fn lemma_tensor_layout(t: &Tensor)
    requires
        t.wf(),
    ensures
        t.logical_count_spec() == product(t.dims_spec()),
        t.logical_count_spec() >= 1,
        t.padded_count_spec() % 8 == 0,
        t.padded_count_spec() >= t.logical_count_spec(),
        forall|m: int|
            #[trigger] (m % 8) == 0 && m >= t.logical_count_spec() ==> m >= t.padded_count_spec(),
        t.byte_size_spec() == t.padded_count_spec() * t.element_spec().size_spec(),
{
    lemma_product_positive(t.dims_spec());
    lemma_padded8_least(t.logical_count_spec());
}

} // verus!
