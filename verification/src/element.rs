use vstd::prelude::*;

verus! {

/// The closed set of primitive numeric types permitted as tensor elements:
/// 32/64-bit floating point and 8/16/32/64-bit signed and unsigned integers.
/// A buffer is sized from the element's byte width alone, so the kind is all
/// the layout code needs to know about the element type.
#[derive(Clone, Copy, Debug, PartialEq, Eq)]
pub enum ElementKind {
    F32,
    F64,
    U8,
    U16,
    U32,
    U64,
    I8,
    I16,
    I32,
    I64,
}

impl ElementKind {
    /// Width of one element of this kind, in bytes.
    pub open spec fn size_spec(self) -> int {
        match self {
            ElementKind::F32 => 4,
            ElementKind::F64 => 8,
            ElementKind::U8 => 1,
            ElementKind::U16 => 2,
            ElementKind::U32 => 4,
            ElementKind::U64 => 8,
            ElementKind::I8 => 1,
            ElementKind::I16 => 2,
            ElementKind::I32 => 4,
            ElementKind::I64 => 8,
        }
    }

    /// Width of one element of this kind, in bytes.
    pub fn size_in_bytes(self) -> (s: usize)
        ensures
            s == self.size_spec(),
    {
        match self {
            ElementKind::F32 => 4,
            ElementKind::F64 => 8,
            ElementKind::U8 => 1,
            ElementKind::U16 => 2,
            ElementKind::U32 => 4,
            ElementKind::U64 => 8,
            ElementKind::I8 => 1,
            ElementKind::I16 => 2,
            ElementKind::I32 => 4,
            ElementKind::I64 => 8,
        }
    }
}

/// Capability trait restricting which element types a tensor buffer may be
/// instantiated over. The whitelist is closed: only the primitive numeric
/// types named by [`ElementKind`] qualify, and each carries the arithmetic
/// operators and bitwise value-copy semantics that future kernels rely on.
/// The integer members implement it here; the two floating-point members are
/// reachable through their [`ElementKind`] alone.
pub trait MatrixElement: core::ops::Add<Output = Self> + core::ops::Sub<
    Output = Self,
> + core::ops::Mul<Output = Self> + Copy + Sized {
    /// The element kind describing this type's layout.
    spec fn kind_spec() -> ElementKind;

    /// The element kind describing this type's layout.
    fn kind() -> (k: ElementKind)
        ensures
            k == Self::kind_spec(),
    ;
}

impl MatrixElement for u8 {
    open spec fn kind_spec() -> ElementKind {
        ElementKind::U8
    }

    fn kind() -> ElementKind {
        ElementKind::U8
    }
}

impl MatrixElement for u16 {
    open spec fn kind_spec() -> ElementKind {
        ElementKind::U16
    }

    fn kind() -> ElementKind {
        ElementKind::U16
    }
}

impl MatrixElement for u32 {
    open spec fn kind_spec() -> ElementKind {
        ElementKind::U32
    }

    fn kind() -> ElementKind {
        ElementKind::U32
    }
}

impl MatrixElement for u64 {
    open spec fn kind_spec() -> ElementKind {
        ElementKind::U64
    }

    fn kind() -> ElementKind {
        ElementKind::U64
    }
}

impl MatrixElement for i8 {
    open spec fn kind_spec() -> ElementKind {
        ElementKind::I8
    }

    fn kind() -> ElementKind {
        ElementKind::I8
    }
}

impl MatrixElement for i16 {
    open spec fn kind_spec() -> ElementKind {
        ElementKind::I16
    }

    fn kind() -> ElementKind {
        ElementKind::I16
    }
}

impl MatrixElement for i32 {
    open spec fn kind_spec() -> ElementKind {
        ElementKind::I32
    }

    fn kind() -> ElementKind {
        ElementKind::I32
    }
}

impl MatrixElement for i64 {
    open spec fn kind_spec() -> ElementKind {
        ElementKind::I64
    }

    fn kind() -> ElementKind {
        ElementKind::I64
    }
}

} // verus!
