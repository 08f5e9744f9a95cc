//! Memory-layout core for a SIMD-oriented tensor library.
//!
//! Given a shape (a list of strictly positive dimension sizes) and an element
//! kind drawn from a closed set of numeric primitives, this crate computes the
//! logical element count (the product of the dimensions), pads it up to the
//! next multiple of 8 so that vectorized loops processing 8 elements per step
//! never run past the buffer, and owns a contiguous allocation of exactly
//! `padded_count * element size` bytes that is released exactly once, when the
//! owning [`tensor::Tensor`] is dropped.

pub mod element;
pub mod layout;
pub mod shape;
pub mod tensor;
