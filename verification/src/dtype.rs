//! The canonical representation of C types, its mathematical value, and the
//! operations that build types and take them apart.

use vstd::prelude::*;
use crate::named::{name_view, Named, NamedView};

verus! {

/// The canonical type of a C object or function.
#[allow(inconsistent_fields)]
#[derive(Debug, PartialEq, Eq, Hash)]
pub enum Dtype {
    Unit { is_const: bool },
    Int { width: usize, is_signed: bool, is_const: bool },
    Float { width: usize, is_const: bool },
    Pointer { inner: Box<Dtype>, is_const: bool },
    Array { inner: Box<Dtype>, size: usize },
    Struct { name: Option<String>, fields: Vec<Named<Dtype>>, is_const: bool },
    Function { ret: Box<Dtype>, params: Vec<Dtype> },
    Typedef { name: String, is_const: bool },
}

/// The mathematical value of a [`Dtype`].
#[allow(inconsistent_fields)]
pub enum DtypeView {
    Unit { is_const: bool },
    Int { width: usize, is_signed: bool, is_const: bool },
    Float { width: usize, is_const: bool },
    Pointer { inner: Box<DtypeView>, is_const: bool },
    Array { inner: Box<DtypeView>, size: usize },
    Struct { name: Option<Seq<char>>, fields: Seq<NamedView<DtypeView>>, is_const: bool },
    Function { ret: Box<DtypeView>, params: Seq<DtypeView> },
    Typedef { name: Seq<char>, is_const: bool },
}

/// The mathematical values of the fields in a vector, in order.
pub open spec fn fields_view(fields: Seq<Named<Dtype>>) -> Seq<NamedView<DtypeView>> {
    Seq::new(fields.len(), |i: int| fields[i]@)
}

/// The mathematical values of the types in a vector, in order.
pub open spec fn dtypes_view(dtypes: Seq<Dtype>) -> Seq<DtypeView> {
    Seq::new(dtypes.len(), |i: int| dtypes[i]@)
}

/// The value of a struct type is made of the values of its parts.
pub proof fn lemma_struct_view(name: Option<String>, fields: Vec<Named<Dtype>>, is_const: bool)
    ensures
        (Dtype::Struct { name, fields, is_const })@ == (DtypeView::Struct {
            name: name_view(name),
            fields: fields_view(fields@),
            is_const,
        }),
{
    assert((Dtype::Struct { name, fields, is_const })@->Struct_fields =~= fields_view(fields@));
}

/// The value of a function type is made of the values of its parts.
pub proof fn lemma_function_view(ret: Box<Dtype>, params: Vec<Dtype>)
    ensures
        (Dtype::Function { ret, params })@ == (DtypeView::Function {
            ret: Box::new(ret@),
            params: dtypes_view(params@),
        }),
{
    assert((Dtype::Function { ret, params })@->params =~= dtypes_view(params@));
}

impl DtypeView {
    /// This type with its own `const` flag set to `is_const`. Arrays and
    /// functions have no such flag and stay as they are.
    pub open spec fn with_const(self, is_const: bool) -> DtypeView {
        match self {
            DtypeView::Unit { .. } => DtypeView::Unit { is_const },
            DtypeView::Int { width, is_signed, .. } => DtypeView::Int {
                width,
                is_signed,
                is_const,
            },
            DtypeView::Float { width, .. } => DtypeView::Float { width, is_const },
            DtypeView::Pointer { inner, .. } => DtypeView::Pointer { inner, is_const },
            DtypeView::Array { .. } => self,
            DtypeView::Struct { name, fields, .. } => DtypeView::Struct { name, fields, is_const },
            DtypeView::Function { .. } => self,
            DtypeView::Typedef { name, .. } => DtypeView::Typedef { name, is_const },
        }
    }

    /// This integer type with its signedness set to `is_signed`; any other
    /// type unchanged.
    pub open spec fn with_signed(self, is_signed: bool) -> DtypeView {
        match self {
            DtypeView::Int { width, is_const, .. } => DtypeView::Int {
                width,
                is_signed,
                is_const,
            },
            _ => self,
        }
    }

    /// What the innermost array of this type holds; the type itself if it is
    /// no array.
    pub open spec fn element(self) -> DtypeView
        decreases self,
    {
        match self {
            DtypeView::Array { inner, .. } => inner.element(),
            _ => self,
        }
    }

    /// This type with one more array dimension of `size` elements, added
    /// innermost: applied to `[n x T]` it gives `[n x [size x T]]`, so that
    /// dimensions read in the order in which a declarator lists them.
    pub open spec fn array_of(self, size: usize) -> DtypeView
        decreases self,
    {
        match self {
            DtypeView::Array { inner, size: outer } => DtypeView::Array {
                inner: Box::new(inner.array_of(size)),
                size: outer,
            },
            _ => DtypeView::Array { inner: Box::new(self), size },
        }
    }
}

impl DtypeView {
    /// Two dimensions added in the order of a declarator nest in that order:
    /// `T a[n][m]` is an array of `n` arrays of `m` elements of `T`.
    pub proof fn lemma_array_dimensions_in_source_order(self, n: usize, m: usize)
        requires
            !(self is Array),
        ensures
            self.array_of(n).array_of(m) == (DtypeView::Array {
                inner: Box::new(DtypeView::Array { inner: Box::new(self), size: m }),
                size: n,
            }),
    {
        reveal_with_fuel(DtypeView::array_of, 3);
    }

    /// A new dimension goes beneath every dimension that the type has: it
    /// becomes the innermost one.
    pub proof fn lemma_array_of_array(self, outer: usize, size: usize)
        ensures
            (DtypeView::Array { inner: Box::new(self), size: outer }).array_of(size)
                == (DtypeView::Array { inner: Box::new(self.array_of(size)), size: outer }),
            self.array_of(size).element() == self.element(),
        decreases self,
    {
        match self {
            DtypeView::Array { inner, size: own } => {
                inner.lemma_array_of_array(own, size);
            },
            _ => {},
        }
    }
}

impl Dtype {
    /// `void`.
    pub fn unit() -> (r: Self)
        ensures
            r@ == (DtypeView::Unit { is_const: false }),
    {
        Self::Unit { is_const: false }
    }

    /// The signed integer type of `width` bits.
    pub fn integer(width: usize) -> (r: Self)
        ensures
            r@ == (DtypeView::Int { width, is_signed: true, is_const: false }),
    {
        Self::Int { width, is_signed: true, is_const: false }
    }

    /// The floating-point type of `width` bits.
    pub fn float(width: usize) -> (r: Self)
        ensures
            r@ == (DtypeView::Float { width, is_const: false }),
    {
        Self::Float { width, is_const: false }
    }

    /// The type of pointers to `inner`.
    pub fn pointer(inner: Dtype) -> (r: Self)
        ensures
            r@ == (DtypeView::Pointer { inner: Box::new(inner@), is_const: false }),
    {
        Self::Pointer { inner: Box::new(inner), is_const: false }
    }

    /// The struct type with the given tag and fields.
    pub fn structure(name: Option<String>, fields: Vec<Named<Self>>) -> (r: Self)
        ensures
            r@ == (DtypeView::Struct {
                name: name_view(name),
                fields: fields_view(fields@),
                is_const: false,
            }),
    {
        proof {
            lemma_struct_view(name, fields, false);
        }
        Self::Struct { name, fields, is_const: false }
    }

    /// The type of functions that take `params` and return `ret`.
    pub fn function(ret: Dtype, params: Vec<Dtype>) -> (r: Self)
        ensures
            r@ == (DtypeView::Function { ret: Box::new(ret@), params: dtypes_view(params@) }),
    {
        proof {
            lemma_function_view(Box::new(ret), params);
        }
        Self::Function { ret: Box::new(ret), params }
    }

    /// The type that the typedef name `name` stands for, not yet looked up.
    pub fn typedef(name: String) -> (r: Self)
        ensures
            r@ == (DtypeView::Typedef { name: name@, is_const: false }),
    {
        Self::Typedef { name, is_const: false }
    }

    /// Whether the innermost array of this type holds functions (or the type,
    /// if it is no array, is a function type).
    pub fn element_is_function(&self) -> (r: bool)
        ensures
            r == (self@.element() is Function),
        decreases self,
    {
        match self {
            Self::Array { inner, .. } => inner.element_is_function(),
            Self::Function { .. } => true,
            _ => false,
        }
    }

    /// Adds an array dimension of `size` elements to `base_dtype`, innermost.
    pub fn array(base_dtype: Dtype, size: usize) -> (r: Self)
        requires
            !(base_dtype@.element() is Function),
        ensures
            r@ == base_dtype@.array_of(size),
        decreases base_dtype,
    {
        match base_dtype {
            Self::Array { inner, size: old_size } => {
                let inner = Self::array(*inner, size);
                Self::Array { inner: Box::new(inner), size: old_size }
            },
            Self::Function { .. } => unreached(),
            inner => Self::Array { inner: Box::new(inner), size },
        }
    }

    /// Sets this type's own `const` flag.
    pub fn set_const(self, is_const: bool) -> (r: Self)
        ensures
            r@ == self@.with_const(is_const),
    {
        match self {
            Self::Unit { .. } => Self::Unit { is_const },
            Self::Int { width, is_signed, .. } => Self::Int { width, is_signed, is_const },
            Self::Float { width, .. } => Self::Float { width, is_const },
            Self::Pointer { inner, .. } => Self::Pointer { inner, is_const },
            Self::Array { inner, size } => Self::Array { inner, size },
            Self::Struct { name, fields, .. } => Self::Struct { name, fields, is_const },
            Self::Function { ret, params } => Self::Function { ret, params },
            Self::Typedef { name, .. } => Self::Typedef { name, is_const },
        }
    }

    /// Sets the signedness of this integer type.
    pub fn set_signed(self, is_signed: bool) -> (r: Self)
        requires
            self is Int,
        ensures
            r@ == self@.with_signed(is_signed),
    {
        match self {
            Self::Int { width, is_const, .. } => Self::Int { width, is_signed, is_const },
            _ => unreached(),
        }
    }
}

impl Dtype {
    /// The mathematical value of this type: strings as character sequences,
    /// vectors as sequences.
    pub open spec fn model(self) -> DtypeView
        decreases self,
    {
        match self {
            Dtype::Unit { is_const } => DtypeView::Unit { is_const },
            Dtype::Int { width, is_signed, is_const } => DtypeView::Int {
                width,
                is_signed,
                is_const,
            },
            Dtype::Float { width, is_const } => DtypeView::Float { width, is_const },
            Dtype::Pointer { inner, is_const } => DtypeView::Pointer {
                inner: Box::new(inner.model()),
                is_const,
            },
            Dtype::Array { inner, size } => DtypeView::Array {
                inner: Box::new(inner.model()),
                size,
            },
            Dtype::Struct { name, fields, is_const } => DtypeView::Struct {
                name: name_view(name),
                fields: Seq::new(
                    fields@.len(),
                    |i: int|
                        NamedView {
                            name: name_view(fields@[i].name),
                            inner: if 0 <= i < fields@.len() {
                                fields@[i].inner.model()
                            } else {
                                arbitrary()
                            },
                        },
                ),
                is_const,
            },
            Dtype::Function { ret, params } => DtypeView::Function {
                ret: Box::new(ret.model()),
                params: Seq::new(
                    params@.len(),
                    |i: int|
                        if 0 <= i < params@.len() {
                            params@[i].model()
                        } else {
                            arbitrary()
                        },
                ),
            },
            Dtype::Typedef { name, is_const } => DtypeView::Typedef { name: name@, is_const },
        }
    }
}

impl View for Dtype {
    type V = DtypeView;

    open spec fn view(&self) -> DtypeView {
        self.model()
    }
}

impl Dtype {
    /// The width of this integer type, in bits.
    pub fn get_int_width(&self) -> (r: Option<usize>)
        ensures
            r == match self@ {
                DtypeView::Int { width, .. } => Some(width),
                _ => None,
            },
    {
        match self {
            Self::Int { width, .. } => Some(*width),
            _ => None,
        }
    }

    /// The width of this floating-point type, in bits.
    pub fn get_float_width(&self) -> (r: Option<usize>)
        ensures
            r == match self@ {
                DtypeView::Float { width, .. } => Some(width),
                _ => None,
            },
    {
        match self {
            Self::Float { width, .. } => Some(*width),
            _ => None,
        }
    }

    /// What this pointer type points to.
    pub fn get_pointer_inner(&self) -> (r: Option<&Self>)
        ensures
            r == match *self {
                Dtype::Pointer { inner, .. } => Some(&*inner),
                _ => None,
            },
    {
        match self {
            Self::Pointer { inner, .. } => Some(&**inner),
            _ => None,
        }
    }

    /// What this array type holds.
    pub fn get_array_inner(&self) -> (r: Option<&Self>)
        ensures
            r == match *self {
                Dtype::Array { inner, .. } => Some(&*inner),
                _ => None,
            },
    {
        match self {
            Self::Array { inner, .. } => Some(&**inner),
            _ => None,
        }
    }

    /// The fields of this struct type, in declared order.
    pub fn get_struct_fields(&self) -> (r: Option<&Vec<Named<Self>>>)
        ensures
            r == match *self {
                Dtype::Struct { fields, .. } => Some(&fields),
                _ => None,
            },
    {
        match self {
            Self::Struct { fields, .. } => Some(fields),
            _ => None,
        }
    }

    /// What this function type returns, and what it takes.
    pub fn get_function_inner(&self) -> (r: Option<(&Self, &Vec<Self>)>)
        ensures
            r == match *self {
                Dtype::Function { ret, params } => Some((&*ret, &params)),
                _ => None,
            },
    {
        match self {
            Self::Function { ret, params } => Some((&**ret, params)),
            _ => None,
        }
    }

    /// Whether this type is an integer or a floating-point type. The question
    /// is not put of `void`.
    pub fn is_scalar(&self) -> (r: bool)
        requires
            !(self is Unit),
        ensures
            r == (self is Int || self is Float),
    {
        match self {
            Self::Unit { .. } => unreached(),
            Self::Int { .. } => true,
            Self::Float { .. } => true,
            _ => false,
        }
    }

    /// Whether this integer type is signed.
    pub fn is_int_signed(&self) -> (r: bool)
        requires
            self is Int,
        ensures
            r == self->is_signed,
    {
        match self {
            Self::Int { is_signed, .. } => *is_signed,
            _ => unreached(),
        }
    }
}

impl Default for Dtype {
    /// `int`.
    fn default() -> (r: Self)
        ensures
            r@ == (DtypeView::Int { width: 32, is_signed: true, is_const: false }),
    {
        Self::integer(32)
    }
}

/// What has a type.
pub trait HasDtype {
    /// The type of this value.
    fn dtype(&self) -> Dtype;
}

impl Clone for Dtype {
    /// A copy with the same mathematical value.
    fn clone(&self) -> (r: Self)
        ensures
            r@ == self@,
        decreases self,
    {
        match self {
            Self::Unit { is_const } => Self::Unit { is_const: *is_const },
            Self::Int { width, is_signed, is_const } => Self::Int {
                width: *width,
                is_signed: *is_signed,
                is_const: *is_const,
            },
            Self::Float { width, is_const } => Self::Float { width: *width, is_const: *is_const },
            Self::Pointer { inner, is_const } => Self::Pointer {
                inner: Box::new((**inner).clone()),
                is_const: *is_const,
            },
            Self::Array { inner, size } => Self::Array {
                inner: Box::new((**inner).clone()),
                size: *size,
            },
            Self::Struct { name, fields, is_const } => {
                let mut copies: Vec<Named<Dtype>> = Vec::new();
                let mut i: usize = 0;
                while i < fields.len()
                    invariant
                        i <= fields.len(),
                        copies.len() == i,
                        self is Struct,
                        self->Struct_fields == fields,
                        forall|k: int|
                            0 <= k < i ==> (#[trigger] copies@[k]).name == fields@[k].name
                                && copies@[k].inner@ == fields@[k].inner@,
                    decreases fields.len() - i,
                {
                    let field = &fields[i];
                    copies.push(Named { name: field.name.clone(), inner: field.inner.clone() });
                    i += 1;
                }
                let r = Self::Struct { name: name.clone(), fields: copies, is_const: *is_const };
                assert(r@->Struct_fields =~= self@->Struct_fields);
                r
            },
            Self::Function { ret, params } => {
                let mut copies: Vec<Dtype> = Vec::new();
                let mut i: usize = 0;
                while i < params.len()
                    invariant
                        i <= params.len(),
                        copies.len() == i,
                        self is Function,
                        self->params == params,
                        forall|k: int| 0 <= k < i ==> (#[trigger] copies@[k])@ == params@[k]@,
                    decreases params.len() - i,
                {
                    copies.push(params[i].clone());
                    i += 1;
                }
                let r = Self::Function { ret: Box::new((**ret).clone()), params: copies };
                assert(r@->Function_params =~= self@->Function_params);
                r
            },
            Self::Typedef { name, is_const } => Self::Typedef {
                name: name.clone(),
                is_const: *is_const,
            },
        }
    }
}

} // verus!
