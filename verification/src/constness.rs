//! Whether an object of a type can be assigned to as a whole.

use vstd::prelude::*;
use crate::dtype::{Dtype, DtypeView};
use crate::named::NamedView;

verus! {

/// Whether the fields before `fields[i]` leave the question open: none of them
/// makes the struct constant.
pub open spec fn examined(fields: Seq<NamedView<DtypeView>>, i: int) -> bool {
    forall|k: int| 0 <= k < i ==> !(#[trigger] fields[k]).inner.makes_const()
}

impl DtypeView {
    /// Whether an object of this type cannot be assigned to as a whole.
    ///
    /// Scalars and pointers say so by their own flag. Arrays and functions are
    /// never assignable. A struct is constant by its own flag or by any of its
    /// fields. A typedef name has only its own flag to show: what it stands
    /// for is not known here, and [`DtypeView::const_defined`] tells whether
    /// the answer depends on one.
    pub open spec fn is_const(self) -> bool
        decreases self, 0nat,
    {
        match self {
            DtypeView::Unit { is_const } => is_const,
            DtypeView::Int { is_const, .. } => is_const,
            DtypeView::Float { is_const, .. } => is_const,
            DtypeView::Pointer { is_const, .. } => is_const,
            DtypeView::Array { .. } => true,
            DtypeView::Struct { fields, is_const, .. } => is_const || exists|i: int|
                0 <= i < fields.len() && (#[trigger] fields[i]).inner.makes_const(),
            DtypeView::Function { .. } => true,
            DtypeView::Typedef { is_const, .. } => is_const,
        }
    }

    /// Whether a field of this type makes its struct constant: an array does
    /// so by its elements, not by being an array; any other type by being
    /// constant.
    pub open spec fn makes_const(self) -> bool
        decreases self, 1nat,
    {
        match self {
            DtypeView::Array { inner, .. } => inner.is_const(),
            _ => self.is_const(),
        }
    }

    /// Whether the constness of this type can be told without looking up a
    /// typedef name. It cannot for a typedef name itself. For a struct whose
    /// own flag is not set, the fields are examined in order up to the first
    /// that makes the struct constant, and each field examined must allow it.
    pub open spec fn const_defined(self) -> bool
        decreases self, 0nat,
    {
        match self {
            DtypeView::Typedef { .. } => false,
            DtypeView::Struct { fields, is_const, .. } => is_const || forall|i: int|
                0 <= i < fields.len() && examined(fields, i) ==> (
                #[trigger] fields[i]).inner.field_const_defined(),
            _ => true,
        }
    }

    /// Whether what a field of this type does to the constness of its struct
    /// can be told without looking up a typedef name.
    pub open spec fn field_const_defined(self) -> bool
        decreases self, 1nat,
    {
        match self {
            DtypeView::Array { inner, .. } => inner.const_defined(),
            _ => self.const_defined(),
        }
    }
}

impl DtypeView {
    /// A field that is an array of elements that are not constant does not by
    /// itself make a struct constant: the struct is constant exactly if it is
    /// without that field.
    pub proof fn lemma_array_field_alone_makes_no_const(self, i: int)
        requires
            self is Struct,
            0 <= i < self->Struct_fields.len(),
            self->Struct_fields[i].inner is Array,
            !self->Struct_fields[i].inner->Array_inner.is_const(),
        ensures
            self.is_const() == (DtypeView::Struct {
                name: self->Struct_name,
                fields: self->Struct_fields.remove(i),
                is_const: self->Struct_is_const,
            }).is_const(),
    {
        let fields = self->Struct_fields;
        let rest = fields.remove(i);
        if exists|k: int| 0 <= k < fields.len() && (#[trigger] fields[k]).inner.makes_const() {
            let k = choose|k: int|
                0 <= k < fields.len() && (#[trigger] fields[k]).inner.makes_const();
            if k < i {
                assert(rest[k] == fields[k]);
            } else {
                assert(rest[k - 1] == fields[k]);
            }
        }
        if exists|k: int| 0 <= k < rest.len() && (#[trigger] rest[k]).inner.makes_const() {
            let k = choose|k: int| 0 <= k < rest.len() && (#[trigger] rest[k]).inner.makes_const();
            if k < i {
                assert(rest[k] == fields[k]);
            } else {
                assert(rest[k] == fields[k + 1]);
            }
        }
    }

    /// A struct with a field that is constant, such as a constant pointer, is
    /// constant.
    pub proof fn lemma_const_field_makes_const(self, i: int)
        requires
            self is Struct,
            0 <= i < self->Struct_fields.len(),
            !(self->Struct_fields[i].inner is Array),
            self->Struct_fields[i].inner.is_const(),
        ensures
            self.is_const(),
    {
        assert(self->Struct_fields[i].inner.makes_const());
    }

    /// Making constant a type whose constness is defined, or leaving it as
    /// constant as it is, gives a type whose constness is defined: it is
    /// constant if it was, or if it was made so.
    pub proof fn lemma_with_const(self, is_const: bool)
        requires
            self.const_defined(),
        ensures
            self.with_const(is_const || self.is_const()).is_const() == (is_const
                || self.is_const()),
            self.with_const(is_const || self.is_const()).const_defined(),
    {
    }
}

impl Dtype {
    /// Whether an object of this type cannot be assigned to as a whole.
    pub fn is_const(&self) -> (r: bool)
        requires
            self@.const_defined(),
        ensures
            r == self@.is_const(),
        decreases self,
    {
        match self {
            Self::Unit { is_const } => *is_const,
            Self::Int { is_const, .. } => *is_const,
            Self::Float { is_const, .. } => *is_const,
            Self::Pointer { is_const, .. } => *is_const,
            Self::Array { .. } => true,
            Self::Struct { fields, is_const, .. } => {
                if *is_const {
                    return true;
                }
                let ghost all = self@->Struct_fields;
                let mut i: usize = 0;
                while i < fields.len()
                    invariant
                        i <= fields.len(),
                        self is Struct,
                        self->Struct_fields == fields,
                        all == self@->Struct_fields,
                        all.len() == fields.len(),
                        self@.const_defined(),
                        !self@->Struct_is_const,
                        examined(all, i as int),
                    decreases fields.len() - i,
                {
                    assert(all[i as int].inner == fields@[i as int].inner@);
                    assert(all[i as int].inner.field_const_defined());
                    let makes_const = match &fields[i].inner {
                        Self::Array { inner, .. } => inner.is_const(),
                        other => other.is_const(),
                    };
                    if makes_const {
                        return true;
                    }
                    i += 1;
                }
                false
            },
            Self::Function { .. } => true,
            Self::Typedef { .. } => unreached(),
        }
    }

    /// Whether an object of this type cannot be assigned to as a whole, where
    /// that can be told without looking up a typedef name.
    pub fn constness(&self) -> (r: Option<bool>)
        ensures
            r is Some == self@.const_defined(),
            r matches Some(is_const) ==> is_const == self@.is_const(),
        decreases self,
    {
        match self {
            Self::Unit { is_const } => Some(*is_const),
            Self::Int { is_const, .. } => Some(*is_const),
            Self::Float { is_const, .. } => Some(*is_const),
            Self::Pointer { is_const, .. } => Some(*is_const),
            Self::Array { .. } => Some(true),
            Self::Struct { fields, is_const, .. } => {
                if *is_const {
                    return Some(true);
                }
                let ghost all = self@->Struct_fields;
                let mut i: usize = 0;
                while i < fields.len()
                    invariant
                        i <= fields.len(),
                        self is Struct,
                        self->Struct_fields == fields,
                        all == self@->Struct_fields,
                        all.len() == fields.len(),
                        !self@->Struct_is_const,
                        examined(all, i as int),
                        forall|k: int|
                            0 <= k < i ==> (#[trigger] all[k]).inner.field_const_defined(),
                    decreases fields.len() - i,
                {
                    assert(all[i as int].inner == fields@[i as int].inner@);
                    let of_field = match &fields[i].inner {
                        Self::Array { inner, .. } => inner.constness(),
                        other => other.constness(),
                    };
                    match of_field {
                        None => {
                            assert(!all[i as int].inner.field_const_defined());
                            return None;
                        },
                        Some(true) => {
                            assert(all[i as int].inner.makes_const());
                            assert forall|j: int|
                                0 <= j < all.len() && examined(all, j) implies (
                            #[trigger] all[j]).inner.field_const_defined() by {
                                if j > i {
                                    assert(!all[i as int].inner.makes_const());
                                }
                            }
                            return Some(true);
                        },
                        Some(false) => {},
                    }
                    i += 1;
                }
                Some(false)
            },
            Self::Function { .. } => Some(true),
            Self::Typedef { .. } => None,
        }
    }
}

} // verus!
