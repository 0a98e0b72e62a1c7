//! From declaration syntax to types: what a finished specifier record, a
//! struct body, a declarator and a parameter list denote.

use vstd::prelude::*;
use crate::ast::{
    ArrayBound, ArrayDeclarator, ArraySize, DeclarationSpecifier, Declarator, DeclaratorKind,
    DerivedDeclarator, FunctionDeclarator, ParameterDeclaration, PointerQualifier,
    StructDeclaration, StructDeclarator, StructType, TypeName,
};
use crate::base::{misc, unsupported, BaseDtypeView, Scalar, Signedness, SizeModifier};
use crate::dtype::DtypeView;
use crate::error::DtypeErrorView;
use crate::named::{name_view, NamedView};

verus! {

/// The result of a derivation: a value, or the first error met.
pub type Derived<T> = Result<T, DtypeErrorView>;

/// The least value of a 128-bit constant that is negative when read as signed.
pub const SIGN_BIT: u128 = 0x8000_0000_0000_0000_0000_0000_0000_0000;

/// The type that a scalar keyword names; `int` where there is none.
pub open spec fn scalar_dtype(scalar: Option<Scalar>) -> DtypeView {
    match scalar {
        Some(Scalar::Void) => DtypeView::Unit { is_const: false },
        Some(Scalar::Bool) => DtypeView::Int { width: 1, is_signed: false, is_const: false },
        Some(Scalar::Char) => DtypeView::Int { width: 8, is_signed: true, is_const: false },
        Some(Scalar::Int) => DtypeView::Int { width: 32, is_signed: true, is_const: false },
        Some(Scalar::Float) => DtypeView::Float { width: 32, is_const: false },
        Some(Scalar::Double) => DtypeView::Float { width: 64, is_const: false },
        None => DtypeView::Int { width: 32, is_signed: true, is_const: false },
    }
}

/// The effect of the size modifiers on a scalar type: none leaves it; a single
/// `short` or `long` replaces it by the 16-bit or 64-bit integer; `long long`
/// is the 64-bit integer; anything else is refused.
pub open spec fn sized_dtype(scalar: DtypeView, modifiers: Seq<SizeModifier>) -> Derived<
    DtypeView,
> {
    if modifiers.len() == 0 {
        Ok(scalar)
    } else if modifiers.len() == 1 {
        Ok(
            DtypeView::Int {
                width: if modifiers[0] is Short {
                    16
                } else {
                    64
                },
                is_signed: true,
                is_const: false,
            },
        )
    } else if modifiers.len() == 2 && modifiers[0] is Long && modifiers[1] is Long {
        Ok(DtypeView::Int { width: 64, is_signed: true, is_const: false })
    } else {
        Err(misc("two or more size modifiers in declaration specifiers"))
    }
}

/// The effect of a signedness keyword: it sets the signedness of an integer
/// type and is refused on any other.
pub open spec fn signed_dtype(dtype: DtypeView, signedness: Option<Signedness>) -> Derived<
    DtypeView,
> {
    match signedness {
        None => Ok(dtype),
        Some(s) => if dtype is Int {
            Ok(dtype.with_signed(s is Signed))
        } else {
            Err(misc("`signed` and `unsigned` only be applied to `Dtype::Int`"))
        },
    }
}

/// Whether `fields[j]` has a name that an earlier field has too.
pub open spec fn repeats_at(fields: Seq<NamedView<DtypeView>>, j: int) -> bool {
    fields[j].name is Some && exists|i: int| 0 <= i < j && fields[i].name == fields[j].name
}

/// The index of the first field whose name an earlier field has too.
pub open spec fn first_repeat(fields: Seq<NamedView<DtypeView>>) -> Option<int>
    decreases fields.len(),
{
    if fields.len() == 0 {
        None
    } else {
        match first_repeat(fields.drop_last()) {
            Some(j) => Some(j),
            None => if repeats_at(fields, fields.len() - 1) {
                Some(fields.len() - 1)
            } else {
                None
            },
        }
    }
}

/// The message for a field name that is used twice.
pub open spec fn repeated_name_message(name: Seq<char>) -> Seq<char> {
    "`"@ + name + "` is arleady used in struct"@
}

/// The type with one more array dimension, whose bound is `size`. Only a
/// bound expression is handled; it must be an integer constant that is not
/// negative, and the elements must not be functions. A bound beyond the
/// machine's `usize` is cut to its low bits.
pub open spec fn with_array_size(dtype: DtypeView, size: ArraySize) -> Derived<DtypeView> {
    match size {
        ArraySize::VariableExpression(bound) => match bound {
            ArrayBound::NotInteger => Err(
                misc("expression is not an integer constant expression"),
            ),
            ArrayBound::Integer { value, is_signed } => if is_signed && value >= SIGN_BIT {
                Err(misc("declared as an array with a negative size"))
            } else if dtype.element() is Function {
                Err(misc("array size cannot be applied to function type"))
            } else {
                Ok(dtype.array_of(value as usize))
            },
        },
        _ => Err(unsupported("array bound other than an expression")),
    }
}

/// The record that the qualifiers of a pointer declarator make.
pub open spec fn pointer_record(qualifiers: Seq<PointerQualifier>) -> Derived<BaseDtypeView> {
    BaseDtypeView::empty().apply_pointer_qualifiers(qualifiers)
}

/// The parameter list of a function type: a lone `void` stands for no
/// parameters.
pub open spec fn function_params(params: Seq<DtypeView>) -> Seq<DtypeView> {
    if params.len() == 1 && params[0] == (DtypeView::Unit { is_const: false }) {
        Seq::empty()
    } else {
        params
    }
}

/// The type of a parameter whose declarator gave `dtype`: an array decays to a
/// pointer to its elements.
pub open spec fn decayed(dtype: DtypeView) -> DtypeView {
    match dtype {
        DtypeView::Array { inner, .. } => DtypeView::Pointer { inner, is_const: false },
        _ => dtype,
    }
}

/// The type that a finished specifier record denotes, given what its struct
/// specifier, if it has one, denotes. A typedef name or a struct specifier may
/// only come with `const`; otherwise the scalar keyword, the size modifiers,
/// the signedness and `const` apply in this order.
pub open spec fn base_dtype_given(base: BaseDtypeView, of_struct: Derived<DtypeView>) -> Derived<
    DtypeView,
> {
    if base.typedef_name is Some {
        if base.scalar is Some || base.size_modifiers.len() != 0 || base.signed_option is Some
            || base.struct_type is Some {
            Err(misc("`typedef` can only be used with `const`"))
        } else {
            Ok(DtypeView::Typedef { name: base.typedef_name->0, is_const: base.is_const })
        }
    } else if base.struct_type is Some {
        if base.scalar is Some || base.size_modifiers.len() != 0 || base.signed_option is Some {
            Err(misc("`struct` can only be used with `const`"))
        } else {
            of_struct
        }
    } else {
        match sized_dtype(scalar_dtype(base.scalar), base.size_modifiers) {
            Err(e) => Err(e),
            Ok(sized) => match signed_dtype(sized, base.signed_option) {
                Err(e) => Err(e),
                Ok(signed) => Ok(signed.with_const(base.is_const)),
            },
        }
    }
}

/// The type that a finished specifier record denotes.
pub open spec fn base_dtype(base: BaseDtypeView) -> Derived<DtypeView> {
    base_dtype_given(
        base,
        match base.struct_type {
            Some(struct_type) => struct_dtype(struct_type, base.is_const),
            None => Ok(DtypeView::Unit { is_const: false }),
        },
    )
}

/// The struct type that a struct specifier denotes: its fields in declared
/// order, no name twice. Unions are not handled.
pub open spec fn struct_dtype(struct_type: StructType, is_const: bool) -> Derived<DtypeView>
    decreases struct_type,
{
    if struct_type.kind is Union {
        Err(unsupported("union"))
    } else {
        match (match struct_type.declarations {
            Some(declarations) => struct_fields(declarations@),
            None => Ok(Seq::empty()),
        }) {
            Err(e) => Err(e),
            Ok(fields) => match first_repeat(fields) {
                Some(j) => Err(
                    DtypeErrorView::Misc { message: repeated_name_message(fields[j].name->0) },
                ),
                None => Ok(
                    DtypeView::Struct {
                        name: name_view(struct_type.identifier),
                        fields,
                        is_const,
                    },
                ),
            },
        }
    }
}

/// The fields that the declarations of a struct body give, in order.
pub open spec fn struct_fields(declarations: Seq<StructDeclaration>) -> Derived<
    Seq<NamedView<DtypeView>>,
>
    decreases declarations,
{
    if declarations.len() == 0 {
        Ok(Seq::empty())
    } else {
        match struct_fields(declarations.drop_last()) {
            Err(e) => Err(e),
            Ok(fields) => match struct_declaration_fields(declarations.last()) {
                Err(e) => Err(e),
                Ok(more) => Ok(fields + more),
            },
        }
    }
}

/// The fields that one member declaration gives: one per declarator, all on
/// the type of the shared specifiers; one nameless field of that type where
/// there is no declarator.
pub open spec fn struct_declaration_fields(declaration: StructDeclaration) -> Derived<
    Seq<NamedView<DtypeView>>,
>
    decreases declaration,
{
    match declaration {
        StructDeclaration::StaticAssert => Err(unsupported("static assertion in a struct")),
        StructDeclaration::Field(field) => match BaseDtypeView::empty().apply_specifier_qualifiers(
            field.specifiers@,
        ) {
            Err(e) => Err(e),
            Ok(base) => if base.is_empty() {
                Err(unsupported("declaration without a type specifier"))
            } else {
                proof {
                    BaseDtypeView::empty().lemma_specifier_qualifiers_struct_origin(
                        field.specifiers@,
                    );
                }
                match base_dtype_given(
                    base,
                    match base.struct_type {
                        Some(struct_type) => struct_dtype(struct_type, base.is_const),
                        None => Ok(DtypeView::Unit { is_const: false }),
                    },
                ) {
                    Err(e) => Err(e),
                    Ok(dtype) => match declared_fields(dtype, field.declarators@) {
                        Err(e) => Err(e),
                        Ok(fields) => if fields.len() == 0 {
                            Ok(seq![NamedView { name: None, inner: dtype }])
                        } else {
                            Ok(fields)
                        },
                    },
                }
            },
        },
    }
}

/// The fields that the declarators of one member declaration give on the
/// shared type `dtype`.
pub open spec fn declared_fields(dtype: DtypeView, declarators: Seq<StructDeclarator>) -> Derived<
    Seq<NamedView<DtypeView>>,
>
    decreases declarators,
{
    if declarators.len() == 0 {
        Ok(Seq::empty())
    } else {
        match declared_fields(dtype, declarators.drop_last()) {
            Err(e) => Err(e),
            Ok(fields) => match declarators.last().declarator {
                None => Err(unsupported("struct member without a declarator")),
                Some(declarator) => match with_declarator(dtype, declarator) {
                    Err(e) => Err(e),
                    Ok(field) => Ok(fields.push(field)),
                },
            },
        }
    }
}

/// The type and name that a declarator gives on the type `dtype`: the derived
/// declarators wrap the type in the order of the list, then the core binds the
/// name or, in parentheses, goes on with the inner declarator.
pub open spec fn with_declarator(dtype: DtypeView, declarator: Declarator) -> Derived<
    NamedView<DtypeView>,
>
    decreases declarator,
{
    match with_derived(dtype, declarator.derived@) {
        Err(e) => Err(e),
        Ok(wrapped) => match declarator.kind {
            DeclaratorKind::Abstract => Ok(NamedView { name: None, inner: wrapped }),
            DeclaratorKind::Identifier(name) => Ok(
                NamedView { name: Some(name@), inner: wrapped },
            ),
            DeclaratorKind::Declarator(inner) => with_declarator(wrapped, *inner),
        },
    }
}

/// The type after the derived declarators of a list, applied in order.
pub open spec fn with_derived(dtype: DtypeView, derived: Seq<DerivedDeclarator>) -> Derived<
    DtypeView,
>
    decreases derived,
{
    if derived.len() == 0 {
        Ok(dtype)
    } else {
        match with_derived(dtype, derived.drop_last()) {
            Err(e) => Err(e),
            Ok(wrapped) => with_derived_declarator(wrapped, derived.last()),
        }
    }
}

/// The type after one derived declarator: a pointer to, an array of, or a
/// function returning `dtype`.
pub open spec fn with_derived_declarator(dtype: DtypeView, derived: DerivedDeclarator) -> Derived<
    DtypeView,
>
    decreases derived,
{
    match derived {
        DerivedDeclarator::Pointer(qualifiers) => match pointer_record(qualifiers@) {
            Err(e) => Err(e),
            Ok(base) => Ok(DtypeView::Pointer { inner: Box::new(dtype), is_const: base.is_const }),
        },
        DerivedDeclarator::Array(array) => if array.qualifiers@.len() != 0 {
            Err(unsupported("qualifier in an array declarator"))
        } else {
            with_array_size(dtype, array.size)
        },
        DerivedDeclarator::Function(function) => match parameter_dtypes(function.parameters@) {
            Err(e) => Err(e),
            Ok(params) => Ok(
                DtypeView::Function { ret: Box::new(dtype), params: function_params(params) },
            ),
        },
        DerivedDeclarator::KRFunction(names) => if names@.len() != 0 {
            Err(unsupported("function declarator with a list of parameter names"))
        } else {
            Ok(DtypeView::Function { ret: Box::new(dtype), params: Seq::empty() })
        },
        DerivedDeclarator::Block(_) => Err(unsupported("block pointer declarator")),
    }
}

/// The types of the parameters of a list, in order.
pub open spec fn parameter_dtypes(parameters: Seq<ParameterDeclaration>) -> Derived<
    Seq<DtypeView>,
>
    decreases parameters,
{
    if parameters.len() == 0 {
        Ok(Seq::empty())
    } else {
        match parameter_dtypes(parameters.drop_last()) {
            Err(e) => Err(e),
            Ok(dtypes) => match parameter_dtype(parameters.last()) {
                Err(e) => Err(e),
                Ok(dtype) => Ok(dtypes.push(dtype)),
            },
        }
    }
}

/// The type of one parameter: that of its specifiers, wrapped by its
/// declarator if it has one; an array type then decays to a pointer.
pub open spec fn parameter_dtype(parameter: ParameterDeclaration) -> Derived<DtypeView>
    decreases parameter,
{
    match BaseDtypeView::empty().apply_declaration_specifiers(parameter.specifiers@) {
        Err(e) => Err(e),
        Ok(base) => if base.is_empty() {
            Err(unsupported("declaration without a type specifier"))
        } else {
            proof {
                BaseDtypeView::empty().lemma_declaration_specifiers_struct_origin(
                    parameter.specifiers@,
                );
            }
            match base_dtype_given(
                    base,
                    match base.struct_type {
                        Some(struct_type) => struct_dtype(struct_type, base.is_const),
                        None => Ok(DtypeView::Unit { is_const: false }),
                    },
                ) {
                Err(e) => Err(e),
                Ok(dtype) => match parameter.declarator {
                    None => Ok(dtype),
                    Some(declarator) => match with_declarator(dtype, declarator) {
                        Err(e) => Err(e),
                        Ok(named) => Ok(decayed(named.inner)),
                    },
                },
            }
        },
    }
}

/// The type that a type name denotes: that of its specifiers, wrapped by its
/// declarator if it has one.
pub open spec fn type_name_dtype(name: TypeName) -> Derived<DtypeView> {
    match BaseDtypeView::empty().apply_specifier_qualifiers(name.specifiers@) {
        Err(e) => Err(e),
        Ok(base) => if base.is_empty() {
            Err(unsupported("declaration without a type specifier"))
        } else {
            match base_dtype(base) {
                Err(e) => Err(e),
                Ok(dtype) => match name.declarator {
                    None => Ok(dtype),
                    Some(declarator) => match with_declarator(dtype, declarator) {
                        Err(e) => Err(e),
                        Ok(named) => Ok(named.inner),
                    },
                },
            }
        },
    }
}

/// The type that a declaration-specifier list denotes, and whether the list
/// holds `typedef`.
pub open spec fn declaration_specifiers_dtype(specifiers: Seq<DeclarationSpecifier>) -> Derived<
    (DtypeView, bool),
> {
    match BaseDtypeView::empty().apply_declaration_specifiers(specifiers) {
        Err(e) => Err(e),
        Ok(base) => if base.is_empty() {
            Err(unsupported("declaration without a type specifier"))
        } else {
            match base_dtype(base) {
                Err(e) => Err(e),
                Ok(dtype) => Ok((dtype, base.is_typedef)),
            }
        },
    }
}

/// A repeated name within a prefix of the fields is the first repeated name
/// of all the fields.
pub proof fn lemma_first_repeat_prefix(fields: Seq<NamedView<DtypeView>>, n: int)
    requires
        0 <= n <= fields.len(),
        first_repeat(fields.take(n)) is Some,
    ensures
        first_repeat(fields) == first_repeat(fields.take(n)),
    decreases fields.len(),
{
    if n == fields.len() {
        assert(fields.take(n) =~= fields);
    } else {
        assert(fields.drop_last().take(n) =~= fields.take(n));
        lemma_first_repeat_prefix(fields.drop_last(), n);
    }
}

/// The first repeated name, if there is one, sits at an index of the fields,
/// repeats an earlier name, and no earlier name does; if there is none, no
/// name repeats.
pub proof fn lemma_first_repeat_is_least(fields: Seq<NamedView<DtypeView>>)
    ensures
        match first_repeat(fields) {
            Some(j) => 0 <= j < fields.len() && repeats_at(fields, j) && forall|k: int|
                0 <= k < j ==> !repeats_at(fields, k),
            None => forall|k: int| 0 <= k < fields.len() ==> !repeats_at(fields, k),
        },
    decreases fields.len(),
{
    if fields.len() > 0 {
        let front = fields.drop_last();
        lemma_first_repeat_is_least(front);
        assert forall|k: int| 0 <= k < front.len() implies repeats_at(front, k) == repeats_at(
            fields,
            k,
        ) by {
            if repeats_at(front, k) {
                let i = choose|i: int| 0 <= i < k && front[i].name == front[k].name;
                assert(fields[i].name == fields[k].name);
            }
            if repeats_at(fields, k) {
                let i = choose|i: int| 0 <= i < k && fields[i].name == fields[k].name;
                assert(front[i].name == front[k].name);
            }
        }
    }
}

/// An error on a prefix of the declarations of a struct body is the error of
/// the whole body.
pub proof fn lemma_struct_fields_first_error(declarations: Seq<StructDeclaration>, n: int)
    requires
        0 <= n <= declarations.len(),
        struct_fields(declarations.take(n)) is Err,
    ensures
        struct_fields(declarations) == struct_fields(declarations.take(n)),
    decreases declarations.len(),
{
    if n == declarations.len() {
        assert(declarations.take(n) =~= declarations);
    } else {
        assert(declarations.drop_last().take(n) =~= declarations.take(n));
        lemma_struct_fields_first_error(declarations.drop_last(), n);
    }
}

/// An error on a prefix of the declarators of a member declaration is the
/// error of all of them.
pub proof fn lemma_declared_fields_first_error(
    dtype: DtypeView,
    declarators: Seq<StructDeclarator>,
    n: int,
)
    requires
        0 <= n <= declarators.len(),
        declared_fields(dtype, declarators.take(n)) is Err,
    ensures
        declared_fields(dtype, declarators) == declared_fields(dtype, declarators.take(n)),
    decreases declarators.len(),
{
    if n == declarators.len() {
        assert(declarators.take(n) =~= declarators);
    } else {
        assert(declarators.drop_last().take(n) =~= declarators.take(n));
        lemma_declared_fields_first_error(dtype, declarators.drop_last(), n);
    }
}

/// An error on a prefix of a list of derived declarators is the error of the
/// whole list.
pub proof fn lemma_with_derived_first_error(
    dtype: DtypeView,
    derived: Seq<DerivedDeclarator>,
    n: int,
)
    requires
        0 <= n <= derived.len(),
        with_derived(dtype, derived.take(n)) is Err,
    ensures
        with_derived(dtype, derived) == with_derived(dtype, derived.take(n)),
    decreases derived.len(),
{
    if n == derived.len() {
        assert(derived.take(n) =~= derived);
    } else {
        assert(derived.drop_last().take(n) =~= derived.take(n));
        lemma_with_derived_first_error(dtype, derived.drop_last(), n);
    }
}

/// An error on a prefix of a parameter list is the error of the whole list.
pub proof fn lemma_parameter_dtypes_first_error(parameters: Seq<ParameterDeclaration>, n: int)
    requires
        0 <= n <= parameters.len(),
        parameter_dtypes(parameters.take(n)) is Err,
    ensures
        parameter_dtypes(parameters) == parameter_dtypes(parameters.take(n)),
    decreases parameters.len(),
{
    if n == parameters.len() {
        assert(parameters.take(n) =~= parameters);
    } else {
        assert(parameters.drop_last().take(n) =~= parameters.take(n));
        lemma_parameter_dtypes_first_error(parameters.drop_last(), n);
    }
}

/// `short` alone among the size modifiers gives the 16-bit integer, whatever
/// the scalar keyword; it is signed unless `unsigned` was given.
pub proof fn lemma_short_is_16_bits(base: BaseDtypeView)
    requires
        base.typedef_name is None,
        base.struct_type is None,
        base.size_modifiers == seq![SizeModifier::Short],
    ensures
        base_dtype(base) == Ok::<DtypeView, DtypeErrorView>(
            DtypeView::Int {
                width: 16,
                is_signed: base.signed_option != Some(Signedness::Unsigned),
                is_const: base.is_const,
            },
        ),
{
}

/// `long` alone among the size modifiers gives the 64-bit integer, and so does
/// `long long`.
pub proof fn lemma_long_is_64_bits(base: BaseDtypeView)
    requires
        base.typedef_name is None,
        base.struct_type is None,
        base.size_modifiers == seq![SizeModifier::Long] || base.size_modifiers
            == seq![SizeModifier::Long, SizeModifier::Long],
    ensures
        base_dtype(base) == Ok::<DtypeView, DtypeErrorView>(
            DtypeView::Int {
                width: 64,
                is_signed: base.signed_option != Some(Signedness::Unsigned),
                is_const: base.is_const,
            },
        ),
{
}

/// Three size modifiers or more are refused, and so are two that are not both
/// `long`.
pub proof fn lemma_too_many_size_modifiers(base: BaseDtypeView)
    requires
        base.size_modifiers.len() >= 3 || (base.size_modifiers.len() == 2 && (
        base.size_modifiers[0] is Short || base.size_modifiers[1] is Short)),
    ensures
        base_dtype(base) is Err,
        base.typedef_name is None && base.struct_type is None ==> base_dtype(base) == Err::<
            DtypeView,
            DtypeErrorView,
        >(misc("two or more size modifiers in declaration specifiers")),
{
}

/// A signedness keyword on a type that is no integer (`void`, `float`,
/// `double`) is refused.
pub proof fn lemma_signedness_needs_integer(base: BaseDtypeView)
    requires
        base.typedef_name is None,
        base.struct_type is None,
        base.size_modifiers.len() == 0,
        base.signed_option is Some,
        base.scalar == Some(Scalar::Void) || base.scalar == Some(Scalar::Float) || base.scalar
            == Some(Scalar::Double),
    ensures
        base_dtype(base) == Err::<DtypeView, DtypeErrorView>(
            misc("`signed` and `unsigned` only be applied to `Dtype::Int`"),
        ),
{
}

/// No two fields of a derived struct type have the same name.
pub proof fn lemma_struct_field_names_distinct(struct_type: StructType, is_const: bool)
    ensures
        match struct_dtype(struct_type, is_const) {
            Ok(dtype) => dtype is Struct && forall|i: int, j: int|
                0 <= i < j < dtype->Struct_fields.len() && dtype->Struct_fields[i].name is Some
                    ==> dtype->Struct_fields[i].name != dtype->Struct_fields[j].name,
            Err(_) => true,
        },
{
    let given = match struct_type.declarations {
        Some(declarations) => struct_fields(declarations@),
        None => Ok(Seq::empty()),
    };
    if let Ok(fields) = given {
        lemma_first_repeat_is_least(fields);
        if first_repeat(fields) is None {
            assert forall|i: int, j: int|
                0 <= i < j < fields.len() && fields[i].name is Some implies fields[i].name
                != fields[j].name by {
                assert(!repeats_at(fields, j));
            }
        }
    }
}

/// A struct body in which the fields at `i` and `j` have the same name is
/// refused.
pub proof fn lemma_repeated_field_name_is_refused(
    struct_type: StructType,
    is_const: bool,
    i: int,
    j: int,
)
    requires
        struct_type.declarations is Some,
        struct_fields(struct_type.declarations->0@) is Ok,
        0 <= i < j < struct_fields(struct_type.declarations->0@)->Ok_0.len(),
        struct_fields(struct_type.declarations->0@)->Ok_0[j].name is Some,
        struct_fields(struct_type.declarations->0@)->Ok_0[i].name == struct_fields(
            struct_type.declarations->0@,
        )->Ok_0[j].name,
    ensures
        struct_dtype(struct_type, is_const) is Err,
{
    let fields = struct_fields(struct_type.declarations->0@)->Ok_0;
    lemma_first_repeat_is_least(fields);
    assert(repeats_at(fields, j));
}

/// A finished record never denotes an array type.
pub proof fn lemma_base_dtype_is_no_array(base: BaseDtypeView)
    ensures
        base_dtype(base) matches Ok(dtype) ==> !(dtype is Array),
{
}

/// A parameter never has an array type: where its declarator gives one, the
/// parameter is a pointer to the elements.
pub proof fn lemma_parameter_is_no_array(parameter: ParameterDeclaration)
    ensures
        parameter_dtype(parameter) matches Ok(dtype) ==> !(dtype is Array),
{
    if let Ok(base) = BaseDtypeView::empty().apply_declaration_specifiers(parameter.specifiers@) {
        lemma_base_dtype_is_no_array(base);
    }
}

/// A parameter list that is a lone `void` makes a function type without
/// parameters; any other list is taken as it is.
pub proof fn lemma_lone_void_is_no_parameter(dtype: DtypeView, function: FunctionDeclarator)
    ensures
        parameter_dtypes(function.parameters@) == Ok::<Seq<DtypeView>, DtypeErrorView>(
            seq![DtypeView::Unit { is_const: false }],
        ) ==> with_derived_declarator(dtype, DerivedDeclarator::Function(function)) == Ok::<
            DtypeView,
            DtypeErrorView,
        >(DtypeView::Function { ret: Box::new(dtype), params: Seq::empty() }),
        parameter_dtypes(function.parameters@) is Ok && parameter_dtypes(
            function.parameters@,
        )->Ok_0 != seq![DtypeView::Unit { is_const: false }] ==> with_derived_declarator(
            dtype,
            DerivedDeclarator::Function(function),
        ) == Ok::<DtypeView, DtypeErrorView>(
            DtypeView::Function {
                ret: Box::new(dtype),
                params: parameter_dtypes(function.parameters@)->Ok_0,
            },
        ),
{
    if let Ok(params) = parameter_dtypes(function.parameters@) {
        if params != seq![DtypeView::Unit { is_const: false }] {
            if params.len() == 1 && params[0] == (DtypeView::Unit { is_const: false }) {
                assert(params =~= seq![DtypeView::Unit { is_const: false }]);
            }
        }
    }
}

/// Whether an array declarator is one that derivation takes: no qualifier,
/// and a bound expression that is an integer constant and not negative.
pub open spec fn plain_dimension(array: ArrayDeclarator) -> bool {
    &&& array.qualifiers@.len() == 0
    &&& array.size is VariableExpression
    &&& array.size->VariableExpression_0 is Integer
    &&& !(array.size->VariableExpression_0->is_signed && array.size->VariableExpression_0->value
        >= SIGN_BIT)
}

/// The number of elements that a plain array declarator declares.
pub open spec fn dimension(array: ArrayDeclarator) -> usize {
    array.size->VariableExpression_0->value as usize
}

/// The dimensions of a declarator nest in the order in which they are
/// written: on `T`, `[n][m]` gives the array of `n` arrays of `m` elements of
/// `T`.
pub proof fn lemma_declared_dimensions_in_source_order(
    dtype: DtypeView,
    first: ArrayDeclarator,
    second: ArrayDeclarator,
)
    requires
        !(dtype is Array),
        !(dtype is Function),
        plain_dimension(first),
        plain_dimension(second),
    ensures
        with_derived(
            dtype,
            seq![DerivedDeclarator::Array(first), DerivedDeclarator::Array(second)],
        ) == Ok::<DtypeView, DtypeErrorView>(
            DtypeView::Array {
                inner: Box::new(
                    DtypeView::Array { inner: Box::new(dtype), size: dimension(second) },
                ),
                size: dimension(first),
            },
        ),
{
    let both = seq![DerivedDeclarator::Array(first), DerivedDeclarator::Array(second)];
    let one = seq![DerivedDeclarator::Array(first)];
    assert(both.drop_last() =~= one);
    assert(one.drop_last() =~= Seq::<DerivedDeclarator>::empty());
    assert(both.last() == DerivedDeclarator::Array(second));
    assert(one.last() == DerivedDeclarator::Array(first));
    reveal_with_fuel(with_derived, 3);
    reveal_with_fuel(DtypeView::element, 3);
    reveal_with_fuel(DtypeView::array_of, 3);
    assert(with_derived(dtype, one) == with_array_size(dtype, first.size));
    dtype.lemma_array_dimensions_in_source_order(dimension(first), dimension(second));
}

} // verus!
