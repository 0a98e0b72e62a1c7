use c_dtype::ast::{
    ArrayBound, ArrayDeclarator, ArraySize, DeclarationSpecifier, Declarator, DeclaratorKind,
    DerivedDeclarator, FunctionDeclarator, ParameterDeclaration, PointerQualifier,
    SpecifierQualifier, StorageClassSpecifier, StructDeclaration, StructDeclarator, StructField,
    StructKind, StructType, TypeName, TypeQualifier, TypeSpecifier,
};
use c_dtype::{BaseDtype, Dtype, DtypeError, Named};

fn misc(message: &str) -> DtypeError {
    DtypeError::Misc { message: message.to_string() }
}

fn unsupported(construct: &str) -> DtypeError {
    DtypeError::Unsupported { construct: construct.to_string() }
}

fn int_of(width: usize, is_signed: bool, is_const: bool) -> Dtype {
    Dtype::Int { width, is_signed, is_const }
}

fn from_specifiers(specifiers: &[TypeSpecifier]) -> Result<Dtype, DtypeError> {
    let mut spec = BaseDtype::new();
    for specifier in specifiers {
        spec.apply_type_specifier(specifier)?;
    }
    assert!(!spec.is_empty());
    Dtype::try_from_base_dtype(spec)
}

fn bound(value: u128) -> ArraySize {
    ArraySize::VariableExpression(ArrayBound::Integer { value, is_signed: true })
}

fn array(value: u128) -> DerivedDeclarator {
    DerivedDeclarator::Array(ArrayDeclarator { qualifiers: vec![], size: bound(value) })
}

fn identifier(name: &str, derived: Vec<DerivedDeclarator>) -> Declarator {
    Declarator { kind: DeclaratorKind::Identifier(name.to_string()), derived }
}

fn abstract_declarator(derived: Vec<DerivedDeclarator>) -> Declarator {
    Declarator { kind: DeclaratorKind::Abstract, derived }
}

fn parameter(specifier: TypeSpecifier, declarator: Option<Declarator>) -> ParameterDeclaration {
    ParameterDeclaration {
        specifiers: vec![DeclarationSpecifier::TypeSpecifier(specifier)],
        declarator,
    }
}

fn field(specifier: TypeSpecifier, names: &[&str]) -> StructDeclaration {
    StructDeclaration::Field(StructField {
        specifiers: vec![SpecifierQualifier::TypeSpecifier(specifier)],
        declarators: names
            .iter()
            .map(|name| StructDeclarator { declarator: Some(identifier(name, vec![])) })
            .collect(),
    })
}

fn structure(name: Option<&str>, declarations: Vec<StructDeclaration>) -> StructType {
    StructType {
        kind: StructKind::Struct,
        identifier: name.map(|n| n.to_string()),
        declarations: Some(declarations),
    }
}

#[test]
fn scalar_keywords() {
    assert_eq!(from_specifiers(&[TypeSpecifier::Void]), Ok(Dtype::Unit { is_const: false }));
    assert_eq!(from_specifiers(&[TypeSpecifier::Bool]), Ok(int_of(1, false, false)));
    assert_eq!(from_specifiers(&[TypeSpecifier::Char]), Ok(int_of(8, true, false)));
    assert_eq!(from_specifiers(&[TypeSpecifier::Int]), Ok(int_of(32, true, false)));
    assert_eq!(
        from_specifiers(&[TypeSpecifier::Float]),
        Ok(Dtype::Float { width: 32, is_const: false })
    );
    assert_eq!(
        from_specifiers(&[TypeSpecifier::Double]),
        Ok(Dtype::Float { width: 64, is_const: false })
    );
}

#[test]
fn short_is_16_bits() {
    assert_eq!(from_specifiers(&[TypeSpecifier::Short]), Ok(int_of(16, true, false)));
    assert_eq!(
        from_specifiers(&[TypeSpecifier::Short, TypeSpecifier::Int]),
        Ok(int_of(16, true, false))
    );
}

#[test]
fn long_is_64_bits() {
    assert_eq!(from_specifiers(&[TypeSpecifier::Long]), Ok(int_of(64, true, false)));
    assert_eq!(
        from_specifiers(&[TypeSpecifier::Long, TypeSpecifier::Long]),
        Ok(int_of(64, true, false))
    );
    assert_eq!(
        from_specifiers(&[TypeSpecifier::Unsigned, TypeSpecifier::Long, TypeSpecifier::Long]),
        Ok(int_of(64, false, false))
    );
}

#[test]
fn a_single_modifier_replaces_the_scalar() {
    assert_eq!(
        from_specifiers(&[TypeSpecifier::Long, TypeSpecifier::Double]),
        Ok(int_of(64, true, false))
    );
    assert_eq!(
        from_specifiers(&[TypeSpecifier::Short, TypeSpecifier::Void]),
        Ok(int_of(16, true, false))
    );
}

#[test]
fn three_modifiers_are_an_error() {
    let expected = Err(misc("two or more size modifiers in declaration specifiers"));
    assert_eq!(
        from_specifiers(&[TypeSpecifier::Long, TypeSpecifier::Long, TypeSpecifier::Long]),
        expected
    );
    assert_eq!(
        from_specifiers(&[TypeSpecifier::Short, TypeSpecifier::Short, TypeSpecifier::Short]),
        expected
    );
    assert_eq!(
        from_specifiers(&[
            TypeSpecifier::Long,
            TypeSpecifier::Long,
            TypeSpecifier::Long,
            TypeSpecifier::Long
        ]),
        expected
    );
}

#[test]
fn two_modifiers_must_both_be_long() {
    let expected = Err(misc("two or more size modifiers in declaration specifiers"));
    assert_eq!(from_specifiers(&[TypeSpecifier::Short, TypeSpecifier::Long]), expected);
    assert_eq!(from_specifiers(&[TypeSpecifier::Long, TypeSpecifier::Short]), expected);
    assert_eq!(from_specifiers(&[TypeSpecifier::Short, TypeSpecifier::Short]), expected);
}

#[test]
fn signedness_sets_the_flag_of_an_integer() {
    assert_eq!(from_specifiers(&[TypeSpecifier::Unsigned]), Ok(int_of(32, false, false)));
    assert_eq!(from_specifiers(&[TypeSpecifier::Signed]), Ok(int_of(32, true, false)));
    assert_eq!(
        from_specifiers(&[TypeSpecifier::Unsigned, TypeSpecifier::Char]),
        Ok(int_of(8, false, false))
    );
    assert_eq!(
        from_specifiers(&[TypeSpecifier::Signed, TypeSpecifier::Bool]),
        Ok(int_of(1, true, false))
    );
    assert_eq!(
        from_specifiers(&[TypeSpecifier::Unsigned, TypeSpecifier::Short]),
        Ok(int_of(16, false, false))
    );
}

#[test]
fn signedness_on_a_non_integer_is_an_error() {
    let expected = Err(misc("`signed` and `unsigned` only be applied to `Dtype::Int`"));
    assert_eq!(from_specifiers(&[TypeSpecifier::Unsigned, TypeSpecifier::Float]), expected);
    assert_eq!(from_specifiers(&[TypeSpecifier::Signed, TypeSpecifier::Float]), expected);
    assert_eq!(from_specifiers(&[TypeSpecifier::Signed, TypeSpecifier::Double]), expected);
    assert_eq!(from_specifiers(&[TypeSpecifier::Unsigned, TypeSpecifier::Void]), expected);
}

#[test]
fn const_alone_is_const_int() {
    let mut spec = BaseDtype::new();
    spec.apply_type_qualifier(&TypeQualifier::Const).unwrap();
    assert_eq!(Dtype::try_from_base_dtype(spec), Ok(int_of(32, true, true)));
}

#[test]
fn const_applies_last() {
    let unsigned = TypeSpecifier::Unsigned;
    let char_ = TypeSpecifier::Char;
    let mut spec = BaseDtype::new();
    spec.apply_type_qualifier(&TypeQualifier::Const).unwrap();
    spec.apply_type_specifier(&unsigned).unwrap();
    spec.apply_type_specifier(&char_).unwrap();
    assert_eq!(Dtype::try_from_base_dtype(spec), Ok(int_of(8, false, true)));
}

#[test]
fn typedef_name_only_with_const() {
    let name = TypeSpecifier::TypedefName("size_t".to_string());
    let mut spec = BaseDtype::new();
    spec.apply_type_specifier(&name).unwrap();
    spec.apply_type_qualifier(&TypeQualifier::Const).unwrap();
    assert_eq!(
        Dtype::try_from_base_dtype(spec),
        Ok(Dtype::Typedef { name: "size_t".to_string(), is_const: true })
    );
    let expected = Err(misc("`typedef` can only be used with `const`"));
    assert_eq!(
        from_specifiers(&[TypeSpecifier::TypedefName("size_t".to_string()), TypeSpecifier::Int]),
        expected
    );
    assert_eq!(
        from_specifiers(&[TypeSpecifier::Long, TypeSpecifier::TypedefName("size_t".to_string())]),
        expected
    );
    assert_eq!(
        from_specifiers(&[
            TypeSpecifier::Unsigned,
            TypeSpecifier::TypedefName("size_t".to_string())
        ]),
        expected
    );
    assert_eq!(
        from_specifiers(&[
            TypeSpecifier::TypedefName("size_t".to_string()),
            TypeSpecifier::Struct(structure(None, vec![]))
        ]),
        expected
    );
}

#[test]
fn struct_only_with_const() {
    let expected = Err(misc("`struct` can only be used with `const`"));
    assert_eq!(
        from_specifiers(&[TypeSpecifier::Struct(structure(None, vec![])), TypeSpecifier::Int]),
        expected
    );
    assert_eq!(
        from_specifiers(&[TypeSpecifier::Struct(structure(None, vec![])), TypeSpecifier::Long]),
        expected
    );
    assert_eq!(
        from_specifiers(&[TypeSpecifier::Struct(structure(None, vec![])), TypeSpecifier::Signed]),
        expected
    );
}

#[test]
fn struct_fields_in_declared_order() {
    let body = structure(
        Some("point"),
        vec![field(TypeSpecifier::Int, &["x"]), field(TypeSpecifier::Float, &["y"])],
    );
    assert_eq!(
        from_specifiers(&[TypeSpecifier::Struct(body)]),
        Ok(Dtype::Struct {
            name: Some("point".to_string()),
            fields: vec![
                Named::new(Some("x".to_string()), int_of(32, true, false)),
                Named::new(Some("y".to_string()), Dtype::Float { width: 32, is_const: false }),
            ],
            is_const: false,
        })
    );
}

#[test]
fn struct_with_a_repeated_field_name_is_an_error() {
    let body =
        structure(None, vec![field(TypeSpecifier::Int, &["x"]), field(TypeSpecifier::Int, &["x"])]);
    assert_eq!(
        from_specifiers(&[TypeSpecifier::Struct(body)]),
        Err(misc("`x` is arleady used in struct"))
    );
}

#[test]
fn the_first_repeated_name_is_reported() {
    let body = structure(
        None,
        vec![
            field(TypeSpecifier::Int, &["a", "b"]),
            field(TypeSpecifier::Float, &["c", "b", "a"]),
        ],
    );
    assert_eq!(
        from_specifiers(&[TypeSpecifier::Struct(body)]),
        Err(misc("`b` is arleady used in struct"))
    );
}

#[test]
fn nameless_fields_do_not_collide() {
    let inner = || TypeSpecifier::Struct(structure(None, vec![field(TypeSpecifier::Int, &["v"])]));
    let body = structure(None, vec![field(inner(), &[]), field(inner(), &[])]);
    let inner_dtype = || Dtype::Struct {
        name: None,
        fields: vec![Named::new(Some("v".to_string()), int_of(32, true, false))],
        is_const: false,
    };
    assert_eq!(
        from_specifiers(&[TypeSpecifier::Struct(body)]),
        Ok(Dtype::Struct {
            name: None,
            fields: vec![Named::new(None, inner_dtype()), Named::new(None, inner_dtype())],
            is_const: false,
        })
    );
}

#[test]
fn struct_without_a_body_has_no_fields() {
    let specifier = TypeSpecifier::Struct(StructType {
        kind: StructKind::Struct,
        identifier: Some("s".to_string()),
        declarations: None,
    });
    let mut spec = BaseDtype::new();
    spec.apply_type_specifier(&specifier).unwrap();
    spec.apply_type_qualifier(&TypeQualifier::Const).unwrap();
    assert_eq!(
        Dtype::try_from_base_dtype(spec),
        Ok(Dtype::Struct { name: Some("s".to_string()), fields: vec![], is_const: true })
    );
}

#[test]
fn union_is_unsupported() {
    let specifier = StructType {
        kind: StructKind::Union,
        identifier: None,
        declarations: Some(vec![field(TypeSpecifier::Int, &["x"])]),
    };
    assert_eq!(from_specifiers(&[TypeSpecifier::Struct(specifier)]), Err(unsupported("union")));
}

#[test]
fn one_field_per_declarator() {
    let declaration = StructDeclaration::Field(StructField {
        specifiers: vec![
            SpecifierQualifier::TypeQualifier(TypeQualifier::Const),
            SpecifierQualifier::TypeSpecifier(TypeSpecifier::Char),
        ],
        declarators: vec![
            StructDeclarator { declarator: Some(identifier("a", vec![])) },
            StructDeclarator {
                declarator: Some(identifier("p", vec![DerivedDeclarator::Pointer(vec![])])),
            },
            StructDeclarator { declarator: Some(identifier("v", vec![array(4)])) },
        ],
    });
    assert_eq!(
        Dtype::try_from_ast_struct_declaration(&declaration),
        Ok(vec![
            Named::new(Some("a".to_string()), int_of(8, true, true)),
            Named::new(
                Some("p".to_string()),
                Dtype::Pointer { inner: Box::new(int_of(8, true, true)), is_const: false }
            ),
            Named::new(
                Some("v".to_string()),
                Dtype::Array { inner: Box::new(int_of(8, true, true)), size: 4 }
            ),
        ])
    );
}

#[test]
fn no_declarator_gives_one_nameless_field() {
    assert_eq!(
        Dtype::try_from_ast_struct_declaration(&field(TypeSpecifier::Double, &[])),
        Ok(vec![Named::new(None, Dtype::Float { width: 64, is_const: false })])
    );
}

#[test]
fn unsupported_struct_members() {
    assert_eq!(
        Dtype::try_from_ast_struct_declaration(&StructDeclaration::StaticAssert),
        Err(unsupported("static assertion in a struct"))
    );
    let bit_field = StructDeclaration::Field(StructField {
        specifiers: vec![SpecifierQualifier::TypeSpecifier(TypeSpecifier::Int)],
        declarators: vec![StructDeclarator { declarator: None }],
    });
    assert_eq!(
        Dtype::try_from_ast_struct_declaration(&bit_field),
        Err(unsupported("struct member without a declarator"))
    );
    let no_specifier = StructDeclaration::Field(StructField {
        specifiers: vec![],
        declarators: vec![StructDeclarator { declarator: Some(identifier("x", vec![])) }],
    });
    assert_eq!(
        Dtype::try_from_ast_struct_declaration(&no_specifier),
        Err(unsupported("declaration without a type specifier"))
    );
}

#[test]
fn an_error_in_the_specifiers_of_a_member_comes_first() {
    let declaration = StructDeclaration::Field(StructField {
        specifiers: vec![
            SpecifierQualifier::TypeSpecifier(TypeSpecifier::Int),
            SpecifierQualifier::TypeSpecifier(TypeSpecifier::Char),
        ],
        declarators: vec![StructDeclarator { declarator: None }],
    });
    assert_eq!(
        Dtype::try_from_ast_struct_declaration(&declaration),
        Err(misc("two or more scalar types in declaration specifiers"))
    );
}

#[test]
fn two_dimensions_nest_in_source_order() {
    let declarator = identifier("a", vec![array(2), array(3)]);
    assert_eq!(
        Dtype::integer(32).with_ast_declarator(&declarator),
        Ok(Named::new(
            Some("a".to_string()),
            Dtype::Array {
                size: 2,
                inner: Box::new(Dtype::Array { size: 3, inner: Box::new(int_of(32, true, false)) }),
            }
        ))
    );
}

#[test]
fn array_of_pointers() {
    let declarator = identifier("a", vec![DerivedDeclarator::Pointer(vec![]), array(2), array(3)]);
    let pointer = Dtype::Pointer { inner: Box::new(int_of(32, true, false)), is_const: false };
    assert_eq!(
        Dtype::integer(32).with_ast_declarator(&declarator),
        Ok(Named::new(
            Some("a".to_string()),
            Dtype::Array {
                size: 2,
                inner: Box::new(Dtype::Array { size: 3, inner: Box::new(pointer) }),
            }
        ))
    );
}

#[test]
fn array_combinator_inserts_innermost() {
    let two = Dtype::array(Dtype::integer(32), 2);
    assert_eq!(two, Dtype::Array { size: 2, inner: Box::new(int_of(32, true, false)) });
    assert!(!two.element_is_function());
    let two_by_three = Dtype::array(two, 3);
    assert!(!two_by_three.element_is_function());
    assert_eq!(
        Dtype::array(two_by_three, 4),
        Dtype::Array {
            size: 2,
            inner: Box::new(Dtype::Array {
                size: 3,
                inner: Box::new(Dtype::Array { size: 4, inner: Box::new(int_of(32, true, false)) }),
            }),
        }
    );
}

#[test]
fn pointer_layers_take_their_qualifiers() {
    let declarator = identifier(
        "p",
        vec![
            DerivedDeclarator::Pointer(vec![PointerQualifier::TypeQualifier(
                TypeQualifier::Const,
            )]),
            DerivedDeclarator::Pointer(vec![]),
        ],
    );
    let base = Dtype::integer(32).set_const(true);
    assert_eq!(
        base.with_ast_declarator(&declarator),
        Ok(Named::new(
            Some("p".to_string()),
            Dtype::Pointer {
                inner: Box::new(Dtype::Pointer {
                    inner: Box::new(int_of(32, true, true)),
                    is_const: true
                }),
                is_const: false,
            }
        ))
    );
}

#[test]
fn unsupported_pointer_qualifiers() {
    let extension =
        identifier("p", vec![DerivedDeclarator::Pointer(vec![PointerQualifier::Extension])]);
    assert_eq!(
        Dtype::integer(32).with_ast_declarator(&extension),
        Err(unsupported("extension among pointer qualifiers"))
    );
    let volatile = identifier(
        "p",
        vec![DerivedDeclarator::Pointer(vec![PointerQualifier::TypeQualifier(
            TypeQualifier::Volatile,
        )])],
    );
    assert_eq!(
        Dtype::integer(32).with_ast_declarator(&volatile),
        Err(unsupported("type qualifier other than `const`"))
    );
}

#[test]
fn abstract_and_parenthesized_declarators() {
    assert_eq!(
        Dtype::integer(32).with_ast_declarator(&abstract_declarator(vec![])),
        Ok(Named::new(None, int_of(32, true, false)))
    );
    // int (*f)[3]: the layers of the outer declarator wrap first.
    let declarator = Declarator {
        kind: DeclaratorKind::Declarator(Box::new(identifier(
            "f",
            vec![DerivedDeclarator::Pointer(vec![])],
        ))),
        derived: vec![array(3)],
    };
    assert_eq!(
        Dtype::integer(32).with_ast_declarator(&declarator),
        Ok(Named::new(
            Some("f".to_string()),
            Dtype::Pointer {
                inner: Box::new(Dtype::Array { size: 3, inner: Box::new(int_of(32, true, false)) }),
                is_const: false,
            }
        ))
    );
}

#[test]
fn array_parameter_decays_to_pointer() {
    let p = parameter(TypeSpecifier::Int, Some(identifier("p", vec![array(10)])));
    assert_eq!(
        Dtype::try_from_ast_parameter_declaration(&p),
        Ok(Dtype::Pointer { inner: Box::new(int_of(32, true, false)), is_const: false })
    );
}

#[test]
fn only_the_outer_dimension_of_a_parameter_decays() {
    let p = parameter(TypeSpecifier::Char, Some(abstract_declarator(vec![array(2), array(3)])));
    assert_eq!(
        Dtype::try_from_ast_parameter_declaration(&p),
        Ok(Dtype::Pointer {
            inner: Box::new(Dtype::Array { size: 3, inner: Box::new(int_of(8, true, false)) }),
            is_const: false,
        })
    );
}

#[test]
fn parameter_without_declarator() {
    assert_eq!(
        Dtype::try_from_ast_parameter_declaration(&parameter(TypeSpecifier::Double, None)),
        Ok(Dtype::Float { width: 64, is_const: false })
    );
    let none = ParameterDeclaration { specifiers: vec![], declarator: None };
    assert_eq!(
        Dtype::try_from_ast_parameter_declaration(&none),
        Err(unsupported("declaration without a type specifier"))
    );
    let only_typedef = ParameterDeclaration {
        specifiers: vec![DeclarationSpecifier::StorageClass(StorageClassSpecifier::Typedef)],
        declarator: None,
    };
    assert_eq!(
        Dtype::try_from_ast_parameter_declaration(&only_typedef),
        Err(unsupported("declaration without a type specifier"))
    );
}

#[test]
fn lone_void_parameter_is_no_parameter() {
    let declarator = identifier(
        "f",
        vec![DerivedDeclarator::Function(FunctionDeclarator {
            parameters: vec![parameter(TypeSpecifier::Void, None)],
        })],
    );
    assert_eq!(
        Dtype::integer(32).with_ast_declarator(&declarator),
        Ok(Named::new(
            Some("f".to_string()),
            Dtype::Function { ret: Box::new(int_of(32, true, false)), params: vec![] }
        ))
    );
}

#[test]
fn void_among_other_parameters_stays() {
    let declarator = identifier(
        "f",
        vec![DerivedDeclarator::Function(FunctionDeclarator {
            parameters: vec![
                parameter(TypeSpecifier::Void, None),
                parameter(TypeSpecifier::Int, None),
            ],
        })],
    );
    assert_eq!(
        Dtype::integer(32).with_ast_declarator(&declarator),
        Ok(Named::new(
            Some("f".to_string()),
            Dtype::Function {
                ret: Box::new(int_of(32, true, false)),
                params: vec![Dtype::Unit { is_const: false }, int_of(32, true, false)],
            }
        ))
    );
}

#[test]
fn const_void_parameter_stays() {
    let declarator = identifier(
        "f",
        vec![DerivedDeclarator::Function(FunctionDeclarator {
            parameters: vec![ParameterDeclaration {
                specifiers: vec![
                    DeclarationSpecifier::TypeQualifier(TypeQualifier::Const),
                    DeclarationSpecifier::TypeSpecifier(TypeSpecifier::Void),
                ],
                declarator: None,
            }],
        })],
    );
    assert_eq!(
        Dtype::unit().with_ast_declarator(&declarator),
        Ok(Named::new(
            Some("f".to_string()),
            Dtype::Function {
                ret: Box::new(Dtype::Unit { is_const: false }),
                params: vec![Dtype::Unit { is_const: true }],
            }
        ))
    );
}

#[test]
fn function_with_parameters() {
    let declarator = identifier(
        "f",
        vec![
            DerivedDeclarator::Function(FunctionDeclarator {
                parameters: vec![
                    parameter(TypeSpecifier::Int, Some(identifier("n", vec![]))),
                    parameter(TypeSpecifier::Float, Some(identifier("v", vec![array(8)]))),
                ],
            }),
            DerivedDeclarator::Pointer(vec![]),
        ],
    );
    let function = Dtype::Function {
        ret: Box::new(Dtype::Unit { is_const: false }),
        params: vec![
            int_of(32, true, false),
            Dtype::Pointer {
                inner: Box::new(Dtype::Float { width: 32, is_const: false }),
                is_const: false,
            },
        ],
    };
    assert_eq!(
        Dtype::unit().with_ast_declarator(&declarator),
        Ok(Named::new(
            Some("f".to_string()),
            Dtype::Pointer { inner: Box::new(function), is_const: false }
        ))
    );
}

#[test]
fn first_parameter_error_wins() {
    let declarator = identifier(
        "f",
        vec![DerivedDeclarator::Function(FunctionDeclarator {
            parameters: vec![
                parameter(TypeSpecifier::Int, None),
                parameter(TypeSpecifier::Enum, None),
                ParameterDeclaration {
                    specifiers: vec![DeclarationSpecifier::Alignment],
                    declarator: None,
                },
            ],
        })],
    );
    assert_eq!(
        Dtype::unit().with_ast_declarator(&declarator),
        Err(unsupported("type specifier"))
    );
}

#[test]
fn function_declarator_with_names_only() {
    let empty = identifier("f", vec![DerivedDeclarator::KRFunction(vec![])]);
    assert_eq!(
        Dtype::integer(32).with_ast_declarator(&empty),
        Ok(Named::new(
            Some("f".to_string()),
            Dtype::Function { ret: Box::new(int_of(32, true, false)), params: vec![] }
        ))
    );
    let named = identifier("f", vec![DerivedDeclarator::KRFunction(vec!["a".to_string()])]);
    assert_eq!(
        Dtype::integer(32).with_ast_declarator(&named),
        Err(unsupported("function declarator with a list of parameter names"))
    );
}

#[test]
fn block_pointer_is_unsupported() {
    let declarator = identifier("b", vec![DerivedDeclarator::Block(vec![])]);
    assert_eq!(
        Dtype::integer(32).with_ast_declarator(&declarator),
        Err(unsupported("block pointer declarator"))
    );
}

#[test]
fn first_layer_error_wins() {
    let declarator = identifier(
        "a",
        vec![
            array(2),
            DerivedDeclarator::Array(ArrayDeclarator {
                qualifiers: vec![],
                size: ArraySize::Unknown,
            }),
            DerivedDeclarator::Block(vec![]),
        ],
    );
    assert_eq!(
        Dtype::integer(32).with_ast_declarator(&declarator),
        Err(unsupported("array bound other than an expression"))
    );
}

#[test]
fn qualifier_in_array_declarator_is_unsupported() {
    let declarator = identifier(
        "a",
        vec![DerivedDeclarator::Array(ArrayDeclarator {
            qualifiers: vec![TypeQualifier::Const],
            size: bound(2),
        })],
    );
    assert_eq!(
        Dtype::integer(32).with_ast_declarator(&declarator),
        Err(unsupported("qualifier in an array declarator"))
    );
}

#[test]
fn array_bounds() {
    assert_eq!(
        Dtype::integer(32).with_ast_array_size(&bound(0)),
        Ok(Dtype::Array { size: 0, inner: Box::new(int_of(32, true, false)) })
    );
    assert_eq!(
        Dtype::integer(32).with_ast_array_size(&ArraySize::VariableExpression(
            ArrayBound::Integer { value: 7, is_signed: false }
        )),
        Ok(Dtype::Array { size: 7, inner: Box::new(int_of(32, true, false)) })
    );
    let expected = Err(unsupported("array bound other than an expression"));
    assert_eq!(Dtype::integer(32).with_ast_array_size(&ArraySize::Unknown), expected);
    assert_eq!(Dtype::integer(32).with_ast_array_size(&ArraySize::VariableUnknown), expected);
    assert_eq!(
        Dtype::integer(32).with_ast_array_size(&ArraySize::StaticExpression(
            ArrayBound::Integer { value: 3, is_signed: true }
        )),
        expected
    );
}

#[test]
fn negative_array_bound_is_an_error() {
    let minus_one = ArraySize::VariableExpression(ArrayBound::Integer {
        value: u128::MAX,
        is_signed: true,
    });
    assert_eq!(
        Dtype::integer(32).with_ast_array_size(&minus_one),
        Err(misc("declared as an array with a negative size"))
    );
    let least = ArraySize::VariableExpression(ArrayBound::Integer {
        value: 1u128 << 127,
        is_signed: true,
    });
    assert_eq!(
        Dtype::integer(32).with_ast_array_size(&least),
        Err(misc("declared as an array with a negative size"))
    );
}

#[test]
fn large_unsigned_bound_is_cut_to_the_machine_word() {
    let all_ones = ArraySize::VariableExpression(ArrayBound::Integer {
        value: u128::MAX,
        is_signed: false,
    });
    assert_eq!(
        Dtype::integer(32).with_ast_array_size(&all_ones),
        Ok(Dtype::Array { size: usize::MAX, inner: Box::new(int_of(32, true, false)) })
    );
    let greatest_signed = ArraySize::VariableExpression(ArrayBound::Integer {
        value: (1u128 << 127) - 1,
        is_signed: true,
    });
    assert_eq!(
        Dtype::integer(32).with_ast_array_size(&greatest_signed),
        Ok(Dtype::Array { size: usize::MAX, inner: Box::new(int_of(32, true, false)) })
    );
}

#[test]
fn bound_that_is_no_integer_constant_is_an_error() {
    assert_eq!(
        Dtype::integer(32)
            .with_ast_array_size(&ArraySize::VariableExpression(ArrayBound::NotInteger)),
        Err(misc("expression is not an integer constant expression"))
    );
}

#[test]
fn array_of_functions_is_an_error() {
    let function = Dtype::function(Dtype::integer(32), vec![]);
    assert!(function.element_is_function());
    assert_eq!(
        function.with_ast_array_size(&bound(2)),
        Err(misc("array size cannot be applied to function type"))
    );
    let declarator = identifier(
        "f",
        vec![
            array(3),
            DerivedDeclarator::Function(FunctionDeclarator { parameters: vec![] }),
            array(2),
        ],
    );
    assert_eq!(
        Dtype::integer(32).with_ast_declarator(&declarator),
        Err(misc("array size cannot be applied to function type"))
    );
}

#[test]
fn type_names() {
    let name = TypeName {
        specifiers: vec![
            SpecifierQualifier::TypeSpecifier(TypeSpecifier::Unsigned),
            SpecifierQualifier::TypeSpecifier(TypeSpecifier::Int),
        ],
        declarator: Some(abstract_declarator(vec![array(5)])),
    };
    assert_eq!(
        Dtype::try_from_ast_type_name(&name),
        Ok(Dtype::Array { size: 5, inner: Box::new(int_of(32, false, false)) })
    );
    let plain = TypeName {
        specifiers: vec![SpecifierQualifier::TypeSpecifier(TypeSpecifier::Float)],
        declarator: None,
    };
    assert_eq!(
        Dtype::try_from_ast_type_name(&plain),
        Ok(Dtype::Float { width: 32, is_const: false })
    );
    let none = TypeName { specifiers: vec![], declarator: None };
    assert_eq!(
        Dtype::try_from_ast_type_name(&none),
        Err(unsupported("declaration without a type specifier"))
    );
    let bad = TypeName {
        specifiers: vec![
            SpecifierQualifier::TypeSpecifier(TypeSpecifier::Float),
            SpecifierQualifier::Extension,
        ],
        declarator: None,
    };
    assert_eq!(
        Dtype::try_from_ast_type_name(&bad),
        Err(unsupported("extension among specifiers"))
    );
}

#[test]
fn declaration_specifiers_tell_typedef() {
    let specifiers = vec![
        DeclarationSpecifier::StorageClass(StorageClassSpecifier::Typedef),
        DeclarationSpecifier::TypeSpecifier(TypeSpecifier::Unsigned),
        DeclarationSpecifier::TypeSpecifier(TypeSpecifier::Char),
    ];
    assert_eq!(
        Dtype::try_from_ast_declaration_specifiers(&specifiers),
        Ok((int_of(8, false, false), true))
    );
    let plain = vec![
        DeclarationSpecifier::TypeQualifier(TypeQualifier::Const),
        DeclarationSpecifier::TypeSpecifier(TypeSpecifier::Long),
    ];
    assert_eq!(
        Dtype::try_from_ast_declaration_specifiers(&plain),
        Ok((int_of(64, true, true), false))
    );
}

#[test]
fn declaration_specifiers_without_a_type_are_refused() {
    assert_eq!(
        Dtype::try_from_ast_declaration_specifiers(&[]),
        Err(unsupported("declaration without a type specifier"))
    );
    assert_eq!(
        Dtype::try_from_ast_declaration_specifiers(&[DeclarationSpecifier::StorageClass(
            StorageClassSpecifier::Typedef
        )]),
        Err(unsupported("declaration without a type specifier"))
    );
    assert_eq!(
        Dtype::try_from_ast_declaration_specifiers(&[
            DeclarationSpecifier::TypeSpecifier(TypeSpecifier::Int),
            DeclarationSpecifier::TypeSpecifier(TypeSpecifier::Int),
        ]),
        Err(misc("two or more scalar types in declaration specifiers"))
    );
}

#[test]
fn struct_in_a_parameter_in_a_struct() {
    // struct { struct { int v; } (*get)(struct { char c; } *); }
    let inner = || TypeSpecifier::Struct(structure(None, vec![field(TypeSpecifier::Int, &["v"])]));
    let argument =
        || TypeSpecifier::Struct(structure(None, vec![field(TypeSpecifier::Char, &["c"])]));
    let getter = Declarator {
        kind: DeclaratorKind::Declarator(Box::new(identifier(
            "get",
            vec![DerivedDeclarator::Pointer(vec![])],
        ))),
        derived: vec![DerivedDeclarator::Function(FunctionDeclarator {
            parameters: vec![parameter(
                argument(),
                Some(abstract_declarator(vec![DerivedDeclarator::Pointer(vec![])])),
            )],
        })],
    };
    let body = structure(
        None,
        vec![StructDeclaration::Field(StructField {
            specifiers: vec![SpecifierQualifier::TypeSpecifier(inner())],
            declarators: vec![StructDeclarator { declarator: Some(getter) }],
        })],
    );
    let inner_dtype = Dtype::Struct {
        name: None,
        fields: vec![Named::new(Some("v".to_string()), int_of(32, true, false))],
        is_const: false,
    };
    let argument_dtype = Dtype::Struct {
        name: None,
        fields: vec![Named::new(Some("c".to_string()), int_of(8, true, false))],
        is_const: false,
    };
    let function = Dtype::Function {
        ret: Box::new(inner_dtype),
        params: vec![Dtype::Pointer { inner: Box::new(argument_dtype), is_const: false }],
    };
    assert_eq!(
        from_specifiers(&[TypeSpecifier::Struct(body)]),
        Ok(Dtype::Struct {
            name: None,
            fields: vec![Named::new(
                Some("get".to_string()),
                Dtype::Pointer { inner: Box::new(function), is_const: false }
            )],
            is_const: false,
        })
    );
}

#[test]
fn conversions_from_type_names_and_parameters() {
    let name = TypeName {
        specifiers: vec![SpecifierQualifier::TypeSpecifier(TypeSpecifier::Short)],
        declarator: Some(abstract_declarator(vec![DerivedDeclarator::Pointer(vec![])])),
    };
    assert_eq!(
        Dtype::try_from(&name),
        Ok(Dtype::Pointer { inner: Box::new(int_of(16, true, false)), is_const: false })
    );
    let p = parameter(TypeSpecifier::Short, Some(abstract_declarator(vec![array(2)])));
    assert_eq!(
        Dtype::try_from(&p),
        Ok(Dtype::Pointer { inner: Box::new(int_of(16, true, false)), is_const: false })
    );
}
