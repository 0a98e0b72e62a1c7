//! Type derivation: the functions that compute what declaration syntax
//! denotes.

use vstd::prelude::*;
use vstd::string::StringExecFns;
use crate::ast::{
    ArrayBound, ArraySize, DeclarationSpecifier, Declarator, DeclaratorKind, DerivedDeclarator,
    ParameterDeclaration, StructDeclaration, StructKind, StructType, TypeName,
};
use crate::base::{BaseDtype, BaseDtypeView, Scalar, Signedness, SizeModifier};
use crate::denotation::{
    base_dtype, declaration_specifiers_dtype, declared_fields, first_repeat, function_params,
    lemma_declared_fields_first_error, lemma_first_repeat_prefix,
    lemma_parameter_dtypes_first_error, lemma_struct_fields_first_error,
    lemma_with_derived_first_error, parameter_dtype, parameter_dtypes, repeats_at,
    struct_declaration_fields, struct_dtype, struct_fields, type_name_dtype, with_array_size,
    with_declarator, with_derived, with_derived_declarator, Derived, SIGN_BIT,
};
use crate::dtype::{dtypes_view, fields_view, Dtype, DtypeView};
use crate::error::{DtypeError, DtypeErrorView};
use crate::named::{Named, NamedView};

verus! {

/// The mathematical value of a derived type or of the error in its place.
pub open spec fn dtype_outcome(r: Result<Dtype, DtypeError>) -> Derived<DtypeView> {
    match r {
        Ok(dtype) => Ok(dtype@),
        Err(e) => Err(e@),
    }
}

/// The mathematical value of a derived named type or of the error in its place.
pub open spec fn named_outcome(r: Result<Named<Dtype>, DtypeError>) -> Derived<
    NamedView<DtypeView>,
> {
    match r {
        Ok(named) => Ok(named@),
        Err(e) => Err(e@),
    }
}

/// The mathematical value of derived fields or of the error in their place.
pub open spec fn fields_outcome(r: Result<Vec<Named<Dtype>>, DtypeError>) -> Derived<
    Seq<NamedView<DtypeView>>,
> {
    match r {
        Ok(fields) => Ok(fields_view(fields@)),
        Err(e) => Err(e@),
    }
}

/// The mathematical value of derived types or of the error in their place.
pub open spec fn dtypes_outcome(r: Result<Vec<Dtype>, DtypeError>) -> Derived<Seq<DtypeView>> {
    match r {
        Ok(dtypes) => Ok(dtypes_view(dtypes@)),
        Err(e) => Err(e@),
    }
}

/// The first name among the fields that an earlier field has too.
fn first_repeated_name(fields: &Vec<Named<Dtype>>) -> (r: Option<&String>)
    ensures
        match first_repeat(fields_view(fields@)) {
            Some(j) => r is Some && Some(r->0@) == fields_view(fields@)[j].name,
            None => r is None,
        },
{
    let ghost all = fields_view(fields@);
    let mut j: usize = 0;
    while j < fields.len()
        invariant
            j <= fields.len(),
            all == fields_view(fields@),
            first_repeat(all.take(j as int)) is None,
        decreases fields.len() - j,
    {
        let ghost front = all.take(j + 1);
        proof {
            assert(front.drop_last() =~= all.take(j as int));
            assert(front[j as int] == all[j as int]);
        }
        if let Some(name) = &fields[j].name {
            let mut found = false;
            let mut i: usize = 0;
            while i < j
                invariant
                    i <= j < fields.len(),
                    all == fields_view(fields@),
                    front == all.take(j + 1),
                    fields@[j as int].name == Some(*name),
                    !found ==> forall|k: int| 0 <= k < i ==> front[k].name != front[j as int].name,
                    found ==> repeats_at(front, j as int),
                decreases j - i,
            {
                if let Some(other) = &fields[i].name {
                    if *other == *name {
                        found = true;
                        assert(front[i as int].name == front[j as int].name);
                    }
                }
                i += 1;
            }
            if found {
                proof {
                    lemma_first_repeat_prefix(all, j + 1);
                }
                return Some(name);
            }
        }
        j += 1;
    }
    proof {
        assert(all.take(j as int) =~= all);
    }
    None
}

impl Dtype {
    /// The type that a finished record denotes where that is not the type of
    /// its struct specifier.
    fn from_plain_base(spec: BaseDtype<'_>) -> (r: Result<Dtype, DtypeError>)
        requires
            !spec@.denotes_struct(),
        ensures
            dtype_outcome(r) == base_dtype(spec@),
    {
        let BaseDtype {
            scalar,
            size_modifiers,
            signed_option,
            typedef_name,
            struct_type,
            is_const,
            is_typedef: _,
        } = spec;
        if let Some(name) = typedef_name {
            if scalar.is_some() || size_modifiers.len() != 0 || signed_option.is_some()
                || struct_type.is_some() {
                return Err(DtypeError::misc("`typedef` can only be used with `const`"));
            }
            return Ok(Self::typedef(name).set_const(is_const));
        }
        if struct_type.is_some() {
            return Err(DtypeError::misc("`struct` can only be used with `const`"));
        }
        let mut dtype = match scalar {
            Some(Scalar::Void) => Self::unit(),
            Some(Scalar::Bool) => Self::Int { width: 1, is_signed: false, is_const: false },
            Some(Scalar::Char) => Self::integer(8),
            Some(Scalar::Int) => Self::integer(32),
            Some(Scalar::Float) => Self::float(32),
            Some(Scalar::Double) => Self::float(64),
            None => Self::integer(32),
        };
        let count = size_modifiers.len();
        if count == 1 {
            dtype = match size_modifiers[0] {
                SizeModifier::Short => Self::integer(16),
                SizeModifier::Long => Self::integer(64),
            };
        } else if count == 2 {
            match (size_modifiers[0], size_modifiers[1]) {
                (SizeModifier::Long, SizeModifier::Long) => {
                    dtype = Self::integer(64);
                },
                _ => {
                    return Err(
                        DtypeError::misc("two or more size modifiers in declaration specifiers"),
                    );
                },
            }
        } else if count != 0 {
            return Err(DtypeError::misc("two or more size modifiers in declaration specifiers"));
        }
        if let Some(signedness) = signed_option {
            let is_signed = match signedness {
                Signedness::Signed => true,
                Signedness::Unsigned => false,
            };
            match dtype {
                Self::Int { .. } => {
                    dtype = dtype.set_signed(is_signed);
                },
                _ => {
                    return Err(
                        DtypeError::misc("`signed` and `unsigned` only be applied to `Dtype::Int`"),
                    );
                },
            }
        }
        Ok(dtype.set_const(is_const))
    }

    /// The struct type that a struct specifier denotes.
    fn from_struct_type(struct_type: &StructType, is_const: bool) -> (r: Result<
        Dtype,
        DtypeError,
    >)
        ensures
            dtype_outcome(r) == struct_dtype(*struct_type, is_const),
        decreases struct_type,
    {
        match struct_type.kind {
            StructKind::Union => {
                return Err(DtypeError::unsupported("union"));
            },
            StructKind::Struct => {},
        }
        let fields = match &struct_type.declarations {
            Some(declarations) => match Self::fields_of_declarations(declarations) {
                Ok(fields) => fields,
                Err(e) => {
                    return Err(e);
                },
            },
            None => {
                let none: Vec<Named<Dtype>> = Vec::new();
                assert(fields_view(none@) =~= Seq::empty());
                none
            },
        };
        match first_repeated_name(&fields) {
            Some(name) => {
                let mut message = "`".to_owned();
                message.append(name.as_str());
                message.append("` is arleady used in struct");
                Err(DtypeError::Misc { message })
            },
            None => {
                let name = match &struct_type.identifier {
                    Some(identifier) => Some(identifier.clone()),
                    None => None,
                };
                Ok(Self::structure(name, fields).set_const(is_const))
            },
        }
    }

    /// The fields that the declarations of a struct body give, in order.
    fn fields_of_declarations(declarations: &Vec<StructDeclaration>) -> (r: Result<
        Vec<Named<Dtype>>,
        DtypeError,
    >)
        ensures
            fields_outcome(r) == struct_fields(declarations@),
        decreases declarations,
    {
        let ghost all = declarations@;
        let mut fields: Vec<Named<Dtype>> = Vec::new();
        let mut i: usize = 0;
        assert(fields_view(fields@) =~= Seq::empty());
        while i < declarations.len()
            invariant
                i <= declarations.len(),
                all == declarations@,
                struct_fields(all.take(i as int)) == Ok::<
                    Seq<NamedView<DtypeView>>,
                    DtypeErrorView,
                >(fields_view(fields@)),
            decreases declarations.len() - i,
        {
            proof {
                assert(all.take(i + 1).drop_last() =~= all.take(i as int));
                assert(all.take(i + 1).last() == all[i as int]);
            }
            match Self::try_from_ast_struct_declaration(&declarations[i]) {
                Ok(mut more) => {
                    let ghost before = fields_view(fields@);
                    let ghost added = fields_view(more@);
                    fields.append(&mut more);
                    assert(fields_view(fields@) =~= before + added);
                },
                Err(e) => {
                    proof {
                        lemma_struct_fields_first_error(all, i + 1);
                    }
                    return Err(e);
                },
            }
            i += 1;
        }
        proof {
            assert(all.take(i as int) =~= all);
        }
        Ok(fields)
    }

    /// Derives the fields that one member declaration of a struct gives: one
    /// per declarator, or one nameless field where there is no declarator.
    #[verifier::loop_isolation(false)]
    pub fn try_from_ast_struct_declaration(declaration: &StructDeclaration) -> (r: Result<
        Vec<Named<Dtype>>,
        DtypeError,
    >)
        ensures
            fields_outcome(r) == struct_declaration_fields(*declaration),
        decreases declaration,
    {
        let field = match declaration {
            StructDeclaration::Field(field) => field,
            StructDeclaration::StaticAssert => {
                return Err(DtypeError::unsupported("static assertion in a struct"));
            },
        };
        let mut spec = BaseDtype::new();
        match spec.apply_specifier_qualifiers(field.specifiers.as_slice()) {
            Ok(()) => {},
            Err(e) => {
                return Err(e);
            },
        }
        if spec.is_empty() {
            return Err(DtypeError::unsupported("declaration without a type specifier"));
        }
        proof {
            BaseDtypeView::empty().lemma_specifier_qualifiers_struct_origin(field.specifiers@);
        }
        let derived = match spec.struct_denoted() {
            Some(struct_type) => Self::from_struct_type(struct_type, spec.is_const),
            None => Self::from_plain_base(spec),
        };
        let dtype = match derived {
            Ok(dtype) => dtype,
            Err(e) => {
                return Err(e);
            },
        };
        let ghost all = field.declarators@;
        let mut fields: Vec<Named<Dtype>> = Vec::new();
        let mut i: usize = 0;
        assert(fields_view(fields@) =~= Seq::empty());
        while i < field.declarators.len()
            invariant
                i <= field.declarators.len(),
                all == field.declarators@,
                *declaration == StructDeclaration::Field(*field),
                declared_fields(dtype@, all.take(i as int)) == Ok::<
                    Seq<NamedView<DtypeView>>,
                    DtypeErrorView,
                >(fields_view(fields@)),
            decreases field.declarators.len() - i,
        {
            proof {
                assert(all.take(i + 1).drop_last() =~= all.take(i as int));
                assert(all.take(i + 1).last() == all[i as int]);
            }
            match &field.declarators[i].declarator {
                None => {
                    proof {
                        lemma_declared_fields_first_error(dtype@, all, i + 1);
                    }
                    return Err(DtypeError::unsupported("struct member without a declarator"));
                },
                Some(declarator) => match dtype.clone().with_ast_declarator(declarator) {
                    Ok(named) => {
                        let ghost before = fields_view(fields@);
                        fields.push(named);
                        assert(fields_view(fields@) =~= before.push(named@));
                    },
                    Err(e) => {
                        proof {
                            lemma_declared_fields_first_error(dtype@, all, i + 1);
                        }
                        return Err(e);
                    },
                },
            }
            i += 1;
        }
        proof {
            assert(all.take(i as int) =~= all);
        }
        if fields.len() == 0 {
            let ghost value = dtype@;
            fields.push(Named::new(None, dtype));
            assert(fields_view(fields@) =~= seq![NamedView { name: None, inner: value }]);
        }
        Ok(fields)
    }

    /// Wraps this type in the layers of `declarator` and binds the name that
    /// the declarator declares, if it declares one.
    #[verifier::loop_isolation(false)]
    pub fn with_ast_declarator(self, declarator: &Declarator) -> (r: Result<
        Named<Dtype>,
        DtypeError,
    >)
        ensures
            named_outcome(r) == with_declarator(self@, *declarator),
        decreases declarator,
    {
        let ghost start = self@;
        let ghost all = declarator.derived@;
        let mut dtype = self;
        let mut i: usize = 0;
        while i < declarator.derived.len()
            invariant
                i <= declarator.derived.len(),
                all == declarator.derived@,
                with_derived(start, all.take(i as int)) == Ok::<DtypeView, DtypeErrorView>(dtype@),
            decreases declarator.derived.len() - i,
        {
            proof {
                assert(all.take(i + 1).drop_last() =~= all.take(i as int));
                assert(all.take(i + 1).last() == all[i as int]);
            }
            match dtype.with_ast_derived_declarator(&declarator.derived[i]) {
                Ok(wrapped) => {
                    dtype = wrapped;
                },
                Err(e) => {
                    proof {
                        lemma_with_derived_first_error(start, all, i + 1);
                    }
                    return Err(e);
                },
            }
            i += 1;
        }
        proof {
            assert(all.take(i as int) =~= all);
        }
        match &declarator.kind {
            DeclaratorKind::Abstract => Ok(Named::new(None, dtype)),
            DeclaratorKind::Identifier(identifier) => Ok(
                Named::new(Some(identifier.clone()), dtype),
            ),
            DeclaratorKind::Declarator(inner) => dtype.with_ast_declarator(inner),
        }
    }

    /// Wraps this type in one layer: a pointer to it, an array of it, or a
    /// function returning it.
    fn with_ast_derived_declarator(self, derived: &DerivedDeclarator) -> (r: Result<
        Dtype,
        DtypeError,
    >)
        ensures
            dtype_outcome(r) == with_derived_declarator(self@, *derived),
        decreases derived,
    {
        match derived {
            DerivedDeclarator::Pointer(qualifiers) => {
                let mut spec = BaseDtype::new();
                match spec.apply_pointer_qualifiers(qualifiers.as_slice()) {
                    Ok(()) => Ok(Self::pointer(self).set_const(spec.is_const)),
                    Err(e) => Err(e),
                }
            },
            DerivedDeclarator::Array(array) => {
                if array.qualifiers.len() != 0 {
                    Err(DtypeError::unsupported("qualifier in an array declarator"))
                } else {
                    self.with_ast_array_size(&array.size)
                }
            },
            DerivedDeclarator::Function(function) => {
                match Self::dtypes_of_parameters(&function.parameters) {
                    Ok(mut params) => {
                        let ghost given = dtypes_view(params@);
                        let lone_void = params.len() == 1 && match &params[0] {
                            Self::Unit { is_const } => !*is_const,
                            _ => false,
                        };
                        if lone_void {
                            let _ = params.pop();
                        }
                        assert(dtypes_view(params@) =~= function_params(given));
                        Ok(Self::function(self, params))
                    },
                    Err(e) => Err(e),
                }
            },
            DerivedDeclarator::KRFunction(names) => {
                if names.len() != 0 {
                    Err(
                        DtypeError::unsupported(
                            "function declarator with a list of parameter names",
                        ),
                    )
                } else {
                    let params: Vec<Dtype> = Vec::new();
                    assert(dtypes_view(params@) =~= Seq::empty());
                    Ok(Self::function(self, params))
                }
            },
            DerivedDeclarator::Block(_) => Err(DtypeError::unsupported("block pointer declarator")),
        }
    }

    /// The types of the parameters of a list, in order.
    fn dtypes_of_parameters(parameters: &Vec<ParameterDeclaration>) -> (r: Result<
        Vec<Dtype>,
        DtypeError,
    >)
        ensures
            dtypes_outcome(r) == parameter_dtypes(parameters@),
        decreases parameters,
    {
        let ghost all = parameters@;
        let mut dtypes: Vec<Dtype> = Vec::new();
        let mut i: usize = 0;
        assert(dtypes_view(dtypes@) =~= Seq::empty());
        while i < parameters.len()
            invariant
                i <= parameters.len(),
                all == parameters@,
                parameter_dtypes(all.take(i as int)) == Ok::<Seq<DtypeView>, DtypeErrorView>(
                    dtypes_view(dtypes@),
                ),
            decreases parameters.len() - i,
        {
            proof {
                assert(all.take(i + 1).drop_last() =~= all.take(i as int));
                assert(all.take(i + 1).last() == all[i as int]);
            }
            match Self::try_from_ast_parameter_declaration(&parameters[i]) {
                Ok(dtype) => {
                    let ghost before = dtypes_view(dtypes@);
                    dtypes.push(dtype);
                    assert(dtypes_view(dtypes@) =~= before.push(dtype@));
                },
                Err(e) => {
                    proof {
                        lemma_parameter_dtypes_first_error(all, i + 1);
                    }
                    return Err(e);
                },
            }
            i += 1;
        }
        proof {
            assert(all.take(i as int) =~= all);
        }
        Ok(dtypes)
    }

    /// Derives the type of a function parameter. An array type decays to a
    /// pointer to its elements.
    pub fn try_from_ast_parameter_declaration(parameter_decl: &ParameterDeclaration) -> (r: Result<
        Dtype,
        DtypeError,
    >)
        ensures
            dtype_outcome(r) == parameter_dtype(*parameter_decl),
        decreases parameter_decl,
    {
        let mut spec = BaseDtype::new();
        match spec.apply_declaration_specifiers(parameter_decl.specifiers.as_slice()) {
            Ok(()) => {},
            Err(e) => {
                return Err(e);
            },
        }
        if spec.is_empty() {
            return Err(DtypeError::unsupported("declaration without a type specifier"));
        }
        proof {
            BaseDtypeView::empty().lemma_declaration_specifiers_struct_origin(
                parameter_decl.specifiers@,
            );
        }
        let derived = match spec.struct_denoted() {
            Some(struct_type) => Self::from_struct_type(struct_type, spec.is_const),
            None => Self::from_plain_base(spec),
        };
        let dtype = match derived {
            Ok(dtype) => dtype,
            Err(e) => {
                return Err(e);
            },
        };
        match &parameter_decl.declarator {
            None => Ok(dtype),
            Some(declarator) => match dtype.with_ast_declarator(declarator) {
                Ok(named) => {
                    let (_, dtype) = named.destruct();
                    match dtype {
                        Self::Array { inner, .. } => Ok(
                            Self::Pointer { inner, is_const: false },
                        ),
                        other => Ok(other),
                    }
                },
                Err(e) => Err(e),
            },
        }
    }

    /// Derives the type that a finished specifier record denotes.
    pub fn try_from_base_dtype(spec: BaseDtype<'_>) -> (r: Result<Dtype, DtypeError>)
        requires
            !spec@.is_empty(),
        ensures
            dtype_outcome(r) == base_dtype(spec@),
    {
        if spec.is_empty() {
            return unreached();
        }
        match spec.struct_denoted() {
            Some(struct_type) => Self::from_struct_type(struct_type, spec.is_const),
            None => Self::from_plain_base(spec),
        }
    }

    /// Derives the type that a type name denotes.
    pub fn try_from_ast_type_name(name: &TypeName) -> (r: Result<Dtype, DtypeError>)
        ensures
            dtype_outcome(r) == type_name_dtype(*name),
    {
        let mut spec = BaseDtype::new();
        match spec.apply_specifier_qualifiers(name.specifiers.as_slice()) {
            Ok(()) => {},
            Err(e) => {
                return Err(e);
            },
        }
        if spec.is_empty() {
            return Err(DtypeError::unsupported("declaration without a type specifier"));
        }
        let dtype = match Self::try_from_base_dtype(spec) {
            Ok(dtype) => dtype,
            Err(e) => {
                return Err(e);
            },
        };
        match &name.declarator {
            None => Ok(dtype),
            Some(declarator) => match dtype.with_ast_declarator(declarator) {
                Ok(named) => {
                    let (_, dtype) = named.destruct();
                    Ok(dtype)
                },
                Err(e) => Err(e),
            },
        }
    }

    /// Derives the type that a declaration-specifier list denotes, and tells
    /// whether the list holds `typedef`.
    pub fn try_from_ast_declaration_specifiers(specifiers: &[DeclarationSpecifier]) -> (r: Result<
        (Dtype, bool),
        DtypeError,
    >)
        ensures
            match declaration_specifiers_dtype(specifiers@) {
                Ok((dtype, is_typedef)) => r is Ok && r->Ok_0.0@ == dtype && r->Ok_0.1
                    == is_typedef,
                Err(e) => r is Err && r->Err_0@ == e,
            },
    {
        let mut spec = BaseDtype::new();
        match spec.apply_declaration_specifiers(specifiers) {
            Ok(()) => {},
            Err(e) => {
                return Err(e);
            },
        }
        if spec.is_empty() {
            return Err(DtypeError::unsupported("declaration without a type specifier"));
        }
        let is_typedef = spec.is_typedef;
        match Self::try_from_base_dtype(spec) {
            Ok(dtype) => Ok((dtype, is_typedef)),
            Err(e) => Err(e),
        }
    }

    /// Adds the array dimension that `array_size` gives to this type.
    pub fn with_ast_array_size(self, array_size: &ArraySize) -> (r: Result<Dtype, DtypeError>)
        ensures
            dtype_outcome(r) == with_array_size(self@, *array_size),
    {
        let bound = match array_size {
            ArraySize::VariableExpression(bound) => bound,
            _ => {
                return Err(DtypeError::unsupported("array bound other than an expression"));
            },
        };
        match bound {
            ArrayBound::NotInteger => Err(
                DtypeError::misc("expression is not an integer constant expression"),
            ),
            ArrayBound::Integer { value, is_signed } => {
                if *is_signed && *value >= SIGN_BIT {
                    Err(DtypeError::misc("declared as an array with a negative size"))
                } else if self.element_is_function() {
                    Err(DtypeError::misc("array size cannot be applied to function type"))
                } else {
                    Ok(Self::array(self, #[verifier::truncate] (*value as usize)))
                }
            },
        }
    }
}

impl<'a> TryFrom<&'a TypeName> for Dtype {
    type Error = DtypeError;

    /// Derives the type that a type name denotes.
    fn try_from(name: &'a TypeName) -> (r: Result<Dtype, DtypeError>)
        ensures
            dtype_outcome(r) == type_name_dtype(*name),
    {
        Dtype::try_from_ast_type_name(name)
    }
}

/// The result of the conversion is stated over its mathematical value, in the
/// `ensures` of `try_from`: a `Dtype` cannot be written down in a
/// specification, so the trait's own specification function says nothing.
impl<'a> vstd::std_specs::convert::TryFromSpecImpl<&'a TypeName> for Dtype {
    open spec fn obeys_try_from_spec() -> bool {
        false
    }

    open spec fn try_from_spec(name: &'a TypeName) -> Result<Dtype, DtypeError> {
        arbitrary()
    }
}

impl<'a> TryFrom<&'a ParameterDeclaration> for Dtype {
    type Error = DtypeError;

    /// Derives the type of a function parameter.
    fn try_from(parameter_decl: &'a ParameterDeclaration) -> (r: Result<Dtype, DtypeError>)
        ensures
            dtype_outcome(r) == parameter_dtype(*parameter_decl),
    {
        Dtype::try_from_ast_parameter_declaration(parameter_decl)
    }
}

/// As for type names, the contract is the `ensures` of `try_from`.
impl<'a> vstd::std_specs::convert::TryFromSpecImpl<&'a ParameterDeclaration> for Dtype {
    open spec fn obeys_try_from_spec() -> bool {
        false
    }

    open spec fn try_from_spec(parameter_decl: &'a ParameterDeclaration) -> Result<
        Dtype,
        DtypeError,
    > {
        arbitrary()
    }
}

} // verus!
