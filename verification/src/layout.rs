//! Size and alignment of types, in bytes, for the one target that this crate
//! models.

use vstd::prelude::*;
use crate::base::unsupported;
use crate::denotation::Derived;
use crate::dtype::{Dtype, DtypeView};
use crate::error::DtypeError;

verus! {

impl Dtype {
    /// The number of bits in a byte.
    pub const BITS_OF_BYTE: usize = 8;

    /// The size of a byte.
    pub const SIZE_OF_BYTE: usize = 1;

    /// The size, and the alignment, of a pointer.
    pub const SIZE_OF_POINTER: usize = 4;

    /// The size of `char`.
    pub const SIZE_OF_CHAR: usize = 1;

    /// The size of `short`.
    pub const SIZE_OF_SHORT: usize = 2;

    /// The size of `int`.
    pub const SIZE_OF_INT: usize = 4;

    /// The size of `long`.
    pub const SIZE_OF_LONG: usize = 8;

    /// The size of `long long`.
    pub const SIZE_OF_LONGLONG: usize = 8;

    /// The size of `float`.
    pub const SIZE_OF_FLOAT: usize = 4;

    /// The size of `double`.
    pub const SIZE_OF_DOUBLE: usize = 8;
}

/// The number of bytes that hold `width` bits.
pub open spec fn bytes_of(width: usize) -> nat {
    ((width + 7) / 8) as nat
}

/// The larger of two numbers.
pub open spec fn larger(a: nat, b: nat) -> nat {
    if a >= b {
        a
    } else {
        b
    }
}

impl DtypeView {
    /// The size and the alignment of this type.
    ///
    /// `void` and functions take no room and align to 1. A scalar takes the
    /// bytes that hold its bits and aligns to its size. A pointer takes and
    /// aligns to [`Dtype::SIZE_OF_POINTER`]. An array aligns as its elements do, each
    /// of which takes its size or its alignment, whichever is larger. The
    /// layout of a struct is not computed. A typedef name has no layout of its
    /// own; what is given for it means nothing (see
    /// [`DtypeView::layout_defined`]).
    pub open spec fn layout(self) -> Derived<(nat, nat)>
        decreases self,
    {
        match self {
            DtypeView::Unit { .. } => Ok((0, 1)),
            DtypeView::Int { width, .. } => Ok((bytes_of(width), bytes_of(width))),
            DtypeView::Float { width, .. } => Ok((bytes_of(width), bytes_of(width))),
            DtypeView::Pointer { .. } => Ok(
                (Dtype::SIZE_OF_POINTER as nat, Dtype::SIZE_OF_POINTER as nat),
            ),
            DtypeView::Array { inner, size } => match inner.layout() {
                Err(e) => Err(e),
                Ok((size_of_inner, align_of_inner)) => Ok(
                    ((size as nat) * larger(size_of_inner, align_of_inner), align_of_inner),
                ),
            },
            DtypeView::Struct { .. } => Err(unsupported("size and alignment of a struct")),
            DtypeView::Function { .. } => Ok((0, 1)),
            DtypeView::Typedef { .. } => Ok((0, 1)),
        }
    }

    /// Whether this type has a layout that the machine can hold: under its
    /// array dimensions stands no typedef name, and the size of the type and
    /// of each array within it fits `usize`.
    pub open spec fn layout_defined(self) -> bool
        decreases self,
    {
        match self {
            DtypeView::Typedef { .. } => false,
            DtypeView::Array { inner, .. } => inner.layout_defined() && (self.layout() matches Ok(
                (size, _),
            ) ==> size <= usize::MAX),
            _ => true,
        }
    }
}

/// The mathematical value of a computed layout or of the error in its place.
pub open spec fn layout_outcome(r: Result<(usize, usize), DtypeError>) -> Derived<(nat, nat)> {
    match r {
        Ok((size, align)) => Ok((size as nat, align as nat)),
        Err(e) => Err(e@),
    }
}

impl Dtype {
    /// The size and the alignment of this type, in bytes.
    pub fn size_align_of(&self) -> (r: Result<(usize, usize), DtypeError>)
        requires
            self@.layout_defined(),
        ensures
            layout_outcome(r) == self@.layout(),
        decreases self,
    {
        match self {
            Self::Unit { .. } => Ok((0, 1)),
            Self::Int { width, .. } | Self::Float { width, .. } => {
                let size_of = *width / Self::BITS_OF_BYTE + if *width % Self::BITS_OF_BYTE != 0 {
                    1
                } else {
                    0
                };
                Ok((size_of, size_of))
            },
            Self::Pointer { .. } => Ok((Self::SIZE_OF_POINTER, Self::SIZE_OF_POINTER)),
            Self::Array { inner, size } => match inner.size_align_of() {
                Ok((size_of_inner, align_of_inner)) => {
                    let stride = if size_of_inner >= align_of_inner {
                        size_of_inner
                    } else {
                        align_of_inner
                    };
                    Ok((*size * stride, align_of_inner))
                },
                Err(e) => Err(e),
            },
            Self::Struct { .. } => Err(DtypeError::unsupported("size and alignment of a struct")),
            Self::Function { .. } => Ok((0, 1)),
            Self::Typedef { .. } => unreached(),
        }
    }

    /// The size and the alignment of this type, in bytes, where it has a
    /// layout that the machine can hold; `None` where it has none.
    pub fn checked_size_align_of(&self) -> (r: Option<Result<(usize, usize), DtypeError>>)
        ensures
            r is Some == self@.layout_defined(),
            r matches Some(found) ==> layout_outcome(found) == self@.layout(),
        decreases self,
    {
        match self {
            Self::Typedef { .. } => None,
            Self::Array { inner, size } => match inner.checked_size_align_of() {
                None => None,
                Some(Err(e)) => Some(Err(e)),
                Some(Ok((size_of_inner, align_of_inner))) => {
                    let stride = if size_of_inner >= align_of_inner {
                        size_of_inner
                    } else {
                        align_of_inner
                    };
                    match size.checked_mul(stride) {
                        Some(size_of) => Some(Ok((size_of, align_of_inner))),
                        None => None,
                    }
                },
            },
            _ => Some(self.size_align_of()),
        }
    }
}

} // verus!
