//! The declaration syntax that type derivation reads: what a C parser hands
//! over for specifiers, qualifiers and declarators, reduced to the parts that
//! decide a type.

use vstd::prelude::*;

verus! {

/// A storage-class keyword.
#[derive(Debug, Clone, Copy, PartialEq, Eq, Hash)]
pub enum StorageClassSpecifier {
    Typedef,
    Extern,
    Static,
    ThreadLocal,
    Auto,
    Register,
}

/// A type qualifier.
#[derive(Debug, Clone, Copy, PartialEq, Eq, Hash)]
pub enum TypeQualifier {
    Const,
    Restrict,
    Volatile,
    Nonnull,
    NullUnspecified,
    Nullable,
    Atomic,
}

/// Whether a struct specifier says `struct` or `union`.
#[derive(Debug, Clone, Copy, PartialEq, Eq, Hash)]
pub enum StructKind {
    Struct,
    Union,
}

/// A type specifier. The variants without a payload that type derivation does
/// not handle (`_Complex`, `_Atomic(..)`, `enum`, `typeof`, the TS 18661 float
/// types) stand for the keyword alone.
#[derive(Debug, PartialEq, Eq, Hash)]
pub enum TypeSpecifier {
    Void,
    Char,
    Short,
    Int,
    Long,
    Float,
    Double,
    Signed,
    Unsigned,
    Bool,
    Complex,
    Atomic,
    Struct(StructType),
    Enum,
    TypedefName(String),
    TypeOf,
    TS18661Float,
}

/// A struct or union specifier, with its member declarations if it has a body.
#[derive(Debug, PartialEq, Eq, Hash)]
pub struct StructType {
    pub kind: StructKind,
    pub identifier: Option<String>,
    pub declarations: Option<Vec<StructDeclaration>>,
}

/// One declaration in the body of a struct or union.
#[derive(Debug, PartialEq, Eq, Hash)]
pub enum StructDeclaration {
    Field(StructField),
    StaticAssert,
}

/// A member declaration: one specifier-qualifier list shared by its
/// declarators.
#[derive(Debug, PartialEq, Eq, Hash)]
pub struct StructField {
    pub specifiers: Vec<SpecifierQualifier>,
    pub declarators: Vec<StructDeclarator>,
}

/// One declarator of a member declaration; it has none where the member is
/// only a bit-field width.
#[derive(Debug, PartialEq, Eq, Hash)]
pub struct StructDeclarator {
    pub declarator: Option<Declarator>,
}

/// An item of a specifier-qualifier list (type names, struct members).
#[derive(Debug, PartialEq, Eq, Hash)]
pub enum SpecifierQualifier {
    TypeSpecifier(TypeSpecifier),
    TypeQualifier(TypeQualifier),
    Extension,
}

/// An item of a declaration-specifier list.
#[derive(Debug, PartialEq, Eq, Hash)]
pub enum DeclarationSpecifier {
    StorageClass(StorageClassSpecifier),
    TypeSpecifier(TypeSpecifier),
    TypeQualifier(TypeQualifier),
    Function,
    Alignment,
    Extension,
}

/// A qualifier written after the `*` of a pointer declarator.
#[derive(Debug, Clone, Copy, PartialEq, Eq, Hash)]
pub enum PointerQualifier {
    TypeQualifier(TypeQualifier),
    Extension,
}

/// A declarator: its core, and the derived declarators in the order in which
/// they wrap the base type.
#[derive(Debug, PartialEq, Eq, Hash)]
pub struct Declarator {
    pub kind: DeclaratorKind,
    pub derived: Vec<DerivedDeclarator>,
}

/// The core of a declarator.
#[derive(Debug, PartialEq, Eq, Hash)]
pub enum DeclaratorKind {
    /// No name is bound.
    Abstract,
    /// The declared identifier.
    Identifier(String),
    /// A declarator in parentheses.
    Declarator(Box<Declarator>),
}

/// One layer that a declarator adds to a type.
#[derive(Debug, PartialEq, Eq, Hash)]
pub enum DerivedDeclarator {
    Pointer(Vec<PointerQualifier>),
    Array(ArrayDeclarator),
    Function(FunctionDeclarator),
    /// A function declarator that lists parameter names only.
    KRFunction(Vec<String>),
    /// A block pointer.
    Block(Vec<PointerQualifier>),
}

/// The brackets of an array declarator.
#[derive(Debug, PartialEq, Eq, Hash)]
pub struct ArrayDeclarator {
    pub qualifiers: Vec<TypeQualifier>,
    pub size: ArraySize,
}

/// The parameter list of a function declarator.
#[derive(Debug, PartialEq, Eq, Hash)]
pub struct FunctionDeclarator {
    pub parameters: Vec<ParameterDeclaration>,
}

/// The bound of an array declarator. A bound expression is held as what the
/// constant-expression evaluator made of it.
#[derive(Debug, Clone, Copy, PartialEq, Eq, Hash)]
pub enum ArraySize {
    /// `[]`
    Unknown,
    /// `[*]`
    VariableUnknown,
    /// `[expr]`
    VariableExpression(ArrayBound),
    /// `[static expr]`
    StaticExpression(ArrayBound),
}

/// The outcome of evaluating a bound expression as a constant.
#[derive(Debug, Clone, Copy, PartialEq, Eq, Hash)]
pub enum ArrayBound {
    /// An integer constant: its bits, and whether its type is signed. A
    /// negative value of a signed type is held in two's complement.
    Integer { value: u128, is_signed: bool },
    /// Anything that is no integer constant.
    NotInteger,
}

/// One parameter of a function declarator.
#[derive(Debug, PartialEq, Eq, Hash)]
pub struct ParameterDeclaration {
    pub specifiers: Vec<DeclarationSpecifier>,
    pub declarator: Option<Declarator>,
}

/// A type name, as in a cast or `sizeof`.
#[derive(Debug, PartialEq, Eq, Hash)]
pub struct TypeName {
    pub specifiers: Vec<SpecifierQualifier>,
    pub declarator: Option<Declarator>,
}

} // verus!
