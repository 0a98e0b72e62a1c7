//! The accumulator that folds the specifiers and qualifiers of one declaration
//! into a single record, rejecting illegal combinations as they arrive.

use vstd::prelude::*;
use crate::ast::{
    DeclarationSpecifier, PointerQualifier, SpecifierQualifier, StorageClassSpecifier, StructType,
    TypeQualifier, TypeSpecifier,
};
use crate::error::{DtypeError, DtypeErrorView};

verus! {

/// A keyword that names a scalar type by itself.
#[derive(Debug, Clone, Copy, PartialEq, Eq, Hash)]
pub enum Scalar {
    Void,
    Bool,
    Char,
    Int,
    Float,
    Double,
}

/// A keyword that changes the size of an integer type.
#[derive(Debug, Clone, Copy, PartialEq, Eq, Hash)]
pub enum SizeModifier {
    Short,
    Long,
}

/// A signedness keyword.
#[derive(Debug, Clone, Copy, PartialEq, Eq, Hash)]
pub enum Signedness {
    Signed,
    Unsigned,
}

/// What the specifiers and qualifiers seen so far in one declaration say.
#[derive(Debug)]
pub struct BaseDtype<'a> {
    pub scalar: Option<Scalar>,
    pub size_modifiers: Vec<SizeModifier>,
    pub signed_option: Option<Signedness>,
    pub typedef_name: Option<String>,
    pub struct_type: Option<&'a StructType>,
    pub is_const: bool,
    pub is_typedef: bool,
}

/// The mathematical value of a [`BaseDtype`].
pub struct BaseDtypeView {
    pub scalar: Option<Scalar>,
    pub size_modifiers: Seq<SizeModifier>,
    pub signed_option: Option<Signedness>,
    pub typedef_name: Option<Seq<char>>,
    pub struct_type: Option<StructType>,
    pub is_const: bool,
    pub is_typedef: bool,
}

impl<'a> View for BaseDtype<'a> {
    type V = BaseDtypeView;

    open spec fn view(&self) -> BaseDtypeView {
        BaseDtypeView {
            scalar: self.scalar,
            size_modifiers: self.size_modifiers@,
            signed_option: self.signed_option,
            typedef_name: match self.typedef_name {
                Some(n) => Some(n@),
                None => None,
            },
            struct_type: match self.struct_type {
                Some(s) => Some(*s),
                None => None,
            },
            is_const: self.is_const,
            is_typedef: self.is_typedef,
        }
    }
}

/// The error for an ill-formed declaration, with its message.
pub open spec fn misc(message: &str) -> DtypeErrorView {
    DtypeErrorView::Misc { message: message@ }
}

/// The error for a construct that type derivation does not handle.
pub open spec fn unsupported(construct: &str) -> DtypeErrorView {
    DtypeErrorView::Unsupported { construct: construct@ }
}

impl BaseDtypeView {
    /// The record before any specifier.
    pub open spec fn empty() -> BaseDtypeView {
        BaseDtypeView {
            scalar: None,
            size_modifiers: Seq::empty(),
            signed_option: None,
            typedef_name: None,
            struct_type: None,
            is_const: false,
            is_typedef: false,
        }
    }

    /// Nothing that decides a type has been seen: no scalar keyword, size
    /// modifier, signedness, typedef name, struct specifier or `const`.
    pub open spec fn is_empty(self) -> bool {
        &&& self.scalar is None
        &&& self.size_modifiers.len() == 0
        &&& self.signed_option is None
        &&& self.typedef_name is None
        &&& self.struct_type is None
        &&& !self.is_const
    }

    /// Whether the record denotes the type of its struct specifier: it has
    /// one, and nothing beside it but `const`.
    pub open spec fn denotes_struct(self) -> bool {
        &&& self.typedef_name is None
        &&& self.struct_type is Some
        &&& self.scalar is None
        &&& self.size_modifiers.len() == 0
        &&& self.signed_option is None
    }

    /// The record after a storage-class keyword: `typedef` is noted, and may
    /// repeat; no other storage class is handled.
    pub open spec fn apply_storage_class(self, storage_class: StorageClassSpecifier) -> Result<
        BaseDtypeView,
        DtypeErrorView,
    > {
        match storage_class {
            StorageClassSpecifier::Typedef => Ok(BaseDtypeView { is_typedef: true, ..self }),
            _ => Err(unsupported("storage class other than `typedef`")),
        }
    }

    /// The record after a type specifier. Signedness, scalar keyword, typedef
    /// name and struct specifier each fill a slot that must still be free;
    /// `short` and `long` are appended to the size modifiers.
    pub open spec fn apply_type_specifier(self, type_specifier: TypeSpecifier) -> Result<
        BaseDtypeView,
        DtypeErrorView,
    > {
        match type_specifier {
            TypeSpecifier::Signed => self.put_signedness(Signedness::Signed),
            TypeSpecifier::Unsigned => self.put_signedness(Signedness::Unsigned),
            TypeSpecifier::Void => self.put_scalar(Scalar::Void),
            TypeSpecifier::Bool => self.put_scalar(Scalar::Bool),
            TypeSpecifier::Char => self.put_scalar(Scalar::Char),
            TypeSpecifier::Int => self.put_scalar(Scalar::Int),
            TypeSpecifier::Float => self.put_scalar(Scalar::Float),
            TypeSpecifier::Double => self.put_scalar(Scalar::Double),
            TypeSpecifier::Short => Ok(
                BaseDtypeView {
                    size_modifiers: self.size_modifiers.push(SizeModifier::Short),
                    ..self
                },
            ),
            TypeSpecifier::Long => Ok(
                BaseDtypeView {
                    size_modifiers: self.size_modifiers.push(SizeModifier::Long),
                    ..self
                },
            ),
            TypeSpecifier::TypedefName(name) => if self.typedef_name is Some {
                Err(misc("two or more typedef names in declaration specifiers"))
            } else {
                Ok(BaseDtypeView { typedef_name: Some(name@), ..self })
            },
            TypeSpecifier::Struct(struct_type) => if self.struct_type is Some {
                Err(misc("two or more struct type in declaration specifiers"))
            } else {
                Ok(BaseDtypeView { struct_type: Some(struct_type), ..self })
            },
            _ => Err(unsupported("type specifier")),
        }
    }

    /// The record after a signedness keyword.
    pub open spec fn put_signedness(self, signedness: Signedness) -> Result<
        BaseDtypeView,
        DtypeErrorView,
    > {
        if self.signed_option is Some {
            Err(misc("duplicate signed option"))
        } else {
            Ok(BaseDtypeView { signed_option: Some(signedness), ..self })
        }
    }

    /// The record after a scalar keyword.
    pub open spec fn put_scalar(self, scalar: Scalar) -> Result<BaseDtypeView, DtypeErrorView> {
        if self.scalar is Some {
            Err(misc("two or more scalar types in declaration specifiers"))
        } else {
            Ok(BaseDtypeView { scalar: Some(scalar), ..self })
        }
    }

    /// The record after a type qualifier: `const` is noted, and may repeat; no
    /// other qualifier is handled.
    pub open spec fn apply_type_qualifier(self, type_qualifier: TypeQualifier) -> Result<
        BaseDtypeView,
        DtypeErrorView,
    > {
        match type_qualifier {
            TypeQualifier::Const => Ok(BaseDtypeView { is_const: true, ..self }),
            _ => Err(unsupported("type qualifier other than `const`")),
        }
    }

    /// The record after one item of a specifier-qualifier list.
    pub open spec fn apply_specifier_qualifier(
        self,
        specifier_qualifier: SpecifierQualifier,
    ) -> Result<BaseDtypeView, DtypeErrorView> {
        match specifier_qualifier {
            SpecifierQualifier::TypeSpecifier(s) => self.apply_type_specifier(s),
            SpecifierQualifier::TypeQualifier(q) => self.apply_type_qualifier(q),
            SpecifierQualifier::Extension => Err(unsupported("extension among specifiers")),
        }
    }

    /// The record after one item of a declaration-specifier list.
    pub open spec fn apply_declaration_specifier(
        self,
        declaration_specifier: DeclarationSpecifier,
    ) -> Result<BaseDtypeView, DtypeErrorView> {
        match declaration_specifier {
            DeclarationSpecifier::StorageClass(c) => self.apply_storage_class(c),
            DeclarationSpecifier::TypeSpecifier(s) => self.apply_type_specifier(s),
            DeclarationSpecifier::TypeQualifier(q) => self.apply_type_qualifier(q),
            DeclarationSpecifier::Function => Err(unsupported("function specifier")),
            DeclarationSpecifier::Alignment => Err(unsupported("alignment specifier")),
            DeclarationSpecifier::Extension => Err(unsupported("extension among specifiers")),
        }
    }

    /// The record after a qualifier of a pointer declarator.
    pub open spec fn apply_pointer_qualifier(self, pointer_qualifier: PointerQualifier) -> Result<
        BaseDtypeView,
        DtypeErrorView,
    > {
        match pointer_qualifier {
            PointerQualifier::TypeQualifier(q) => self.apply_type_qualifier(q),
            PointerQualifier::Extension => Err(unsupported("extension among pointer qualifiers")),
        }
    }

    /// The record after a whole specifier-qualifier list, applied in order; the
    /// first item that is refused decides the error.
    pub open spec fn apply_specifier_qualifiers(self, items: Seq<SpecifierQualifier>) -> Result<
        BaseDtypeView,
        DtypeErrorView,
    >
        decreases items.len(),
    {
        if items.len() == 0 {
            Ok(self)
        } else {
            match self.apply_specifier_qualifiers(items.drop_last()) {
                Ok(b) => b.apply_specifier_qualifier(items.last()),
                Err(e) => Err(e),
            }
        }
    }

    /// The record after a whole declaration-specifier list, applied in order;
    /// the first item that is refused decides the error.
    pub open spec fn apply_declaration_specifiers(
        self,
        items: Seq<DeclarationSpecifier>,
    ) -> Result<BaseDtypeView, DtypeErrorView>
        decreases items.len(),
    {
        if items.len() == 0 {
            Ok(self)
        } else {
            match self.apply_declaration_specifiers(items.drop_last()) {
                Ok(b) => b.apply_declaration_specifier(items.last()),
                Err(e) => Err(e),
            }
        }
    }

    /// The record after the qualifiers of a pointer declarator, applied in
    /// order.
    pub open spec fn apply_pointer_qualifiers(self, items: Seq<PointerQualifier>) -> Result<
        BaseDtypeView,
        DtypeErrorView,
    >
        decreases items.len(),
    {
        if items.len() == 0 {
            Ok(self)
        } else {
            match self.apply_pointer_qualifiers(items.drop_last()) {
                Ok(b) => b.apply_pointer_qualifier(items.last()),
                Err(e) => Err(e),
            }
        }
    }
}

impl BaseDtypeView {
    /// Whether `reached` is what the items of a specifier-qualifier list
    /// before the first refused one make of this record.
    pub open spec fn stops_in_specifier_qualifiers(
        self,
        items: Seq<SpecifierQualifier>,
        reached: BaseDtypeView,
    ) -> bool {
        exists|n: int|
            0 <= n < items.len() && self.apply_specifier_qualifiers(#[trigger] items.take(n))
                == Ok::<BaseDtypeView, DtypeErrorView>(reached)
                && reached.apply_specifier_qualifier(items[n]) is Err
    }

    /// Whether `reached` is what the items of a declaration-specifier list
    /// before the first refused one make of this record.
    pub open spec fn stops_in_declaration_specifiers(
        self,
        items: Seq<DeclarationSpecifier>,
        reached: BaseDtypeView,
    ) -> bool {
        exists|n: int|
            0 <= n < items.len() && self.apply_declaration_specifiers(#[trigger] items.take(n))
                == Ok::<BaseDtypeView, DtypeErrorView>(reached)
                && reached.apply_declaration_specifier(items[n]) is Err
    }

    /// Whether `reached` is what the qualifiers of a pointer declarator before
    /// the first refused one make of this record.
    pub open spec fn stops_in_pointer_qualifiers(
        self,
        items: Seq<PointerQualifier>,
        reached: BaseDtypeView,
    ) -> bool {
        exists|n: int|
            0 <= n < items.len() && self.apply_pointer_qualifiers(#[trigger] items.take(n))
                == Ok::<BaseDtypeView, DtypeErrorView>(reached)
                && reached.apply_pointer_qualifier(items[n]) is Err
    }
}

/// How one step of the accumulator relates the record before it, the record
/// after it and what it returned to the step's mathematical outcome: on
/// success the record is the new one, on failure it is untouched.
pub open spec fn stepped(
    before: BaseDtypeView,
    after: BaseDtypeView,
    returned: Result<(), DtypeError>,
    outcome: Result<BaseDtypeView, DtypeErrorView>,
) -> bool {
    match outcome {
        Ok(b) => returned is Ok && after == b,
        Err(e) => returned is Err && returned->Err_0@ == e && after == before,
    }
}

impl BaseDtypeView {
    /// An error on a prefix of a specifier-qualifier list is the error of the
    /// whole list.
    pub proof fn lemma_specifier_qualifiers_first_error(
        self,
        items: Seq<SpecifierQualifier>,
        n: int,
    )
        requires
            0 <= n <= items.len(),
            self.apply_specifier_qualifiers(items.take(n)) is Err,
        ensures
            self.apply_specifier_qualifiers(items) == self.apply_specifier_qualifiers(
                items.take(n),
            ),
        decreases items.len(),
    {
        if n == items.len() {
            assert(items.take(n) =~= items);
        } else {
            assert(items.drop_last().take(n) =~= items.take(n));
            self.lemma_specifier_qualifiers_first_error(items.drop_last(), n);
        }
    }

    /// An error on a prefix of a declaration-specifier list is the error of the
    /// whole list.
    pub proof fn lemma_declaration_specifiers_first_error(
        self,
        items: Seq<DeclarationSpecifier>,
        n: int,
    )
        requires
            0 <= n <= items.len(),
            self.apply_declaration_specifiers(items.take(n)) is Err,
        ensures
            self.apply_declaration_specifiers(items) == self.apply_declaration_specifiers(
                items.take(n),
            ),
        decreases items.len(),
    {
        if n == items.len() {
            assert(items.take(n) =~= items);
        } else {
            assert(items.drop_last().take(n) =~= items.take(n));
            self.lemma_declaration_specifiers_first_error(items.drop_last(), n);
        }
    }

    /// An error on a prefix of a list of pointer qualifiers is the error of the
    /// whole list.
    pub proof fn lemma_pointer_qualifiers_first_error(self, items: Seq<PointerQualifier>, n: int)
        requires
            0 <= n <= items.len(),
            self.apply_pointer_qualifiers(items.take(n)) is Err,
        ensures
            self.apply_pointer_qualifiers(items) == self.apply_pointer_qualifiers(items.take(n)),
        decreases items.len(),
    {
        if n == items.len() {
            assert(items.take(n) =~= items);
        } else {
            assert(items.drop_last().take(n) =~= items.take(n));
            self.lemma_pointer_qualifiers_first_error(items.drop_last(), n);
        }
    }
}

impl BaseDtypeView {
    /// The struct specifier that a specifier-qualifier list leaves in the
    /// record was there before, or is a part of the list.
    pub proof fn lemma_specifier_qualifiers_struct_origin(self, items: Seq<SpecifierQualifier>)
        ensures
            self.apply_specifier_qualifiers(items) matches Ok(b) ==> (b.struct_type
                == self.struct_type || (b.struct_type is Some && decreases_to!(
                items => b.struct_type->0,
            ))),
        decreases items.len(),
    {
        if items.len() > 0 {
            let front = items.drop_last();
            let last = items[items.len() - 1];
            self.lemma_specifier_qualifiers_struct_origin(front);
            if let Ok(before) = self.apply_specifier_qualifiers(front) {
                if let Ok(after) = before.apply_specifier_qualifier(last) {
                    if after.struct_type != before.struct_type {
                        let specifier = last->TypeSpecifier_0;
                        assert(after.struct_type->0 == specifier->Struct_0);
                        assert(decreases_to!(items => last));
                        assert(decreases_to!(last => specifier));
                        assert(decreases_to!(specifier => specifier->Struct_0));
                    } else if before.struct_type != self.struct_type {
                        assert(decreases_to!(items => front));
                    }
                }
            }
        }
    }

    /// The struct specifier that a declaration-specifier list leaves in the
    /// record was there before, or is a part of the list.
    pub proof fn lemma_declaration_specifiers_struct_origin(
        self,
        items: Seq<DeclarationSpecifier>,
    )
        ensures
            self.apply_declaration_specifiers(items) matches Ok(b) ==> (b.struct_type
                == self.struct_type || (b.struct_type is Some && decreases_to!(
                items => b.struct_type->0,
            ))),
        decreases items.len(),
    {
        if items.len() > 0 {
            let front = items.drop_last();
            let last = items[items.len() - 1];
            self.lemma_declaration_specifiers_struct_origin(front);
            if let Ok(before) = self.apply_declaration_specifiers(front) {
                if let Ok(after) = before.apply_declaration_specifier(last) {
                    if after.struct_type != before.struct_type {
                        let specifier = last->TypeSpecifier_0;
                        assert(after.struct_type->0 == specifier->Struct_0);
                        assert(decreases_to!(items => last));
                        assert(decreases_to!(last => specifier));
                        assert(decreases_to!(specifier => specifier->Struct_0));
                    } else if before.struct_type != self.struct_type {
                        assert(decreases_to!(items => front));
                    }
                }
            }
        }
    }
}

/// Whether a type specifier is `signed` or `unsigned`.
pub open spec fn is_signedness(specifier: TypeSpecifier) -> bool {
    specifier is Signed || specifier is Unsigned
}

impl BaseDtypeView {
    /// A signedness keyword is refused once the record holds one: `unsigned`
    /// twice, `signed` after `unsigned` and the like are errors.
    pub proof fn lemma_second_signedness_is_refused(
        self,
        first: TypeSpecifier,
        second: TypeSpecifier,
    )
        requires
            is_signedness(first),
            is_signedness(second),
        ensures
            self.signed_option is Some ==> self.apply_type_specifier(second) == Err::<
                BaseDtypeView,
                DtypeErrorView,
            >(misc("duplicate signed option")),
            self.apply_type_specifier(first) matches Ok(noted) ==> noted.apply_type_specifier(
                second,
            ) == Err::<BaseDtypeView, DtypeErrorView>(misc("duplicate signed option")),
    {
    }

    /// Once a list of declaration specifiers has held a signedness keyword,
    /// the record holds a signedness as long as nothing is refused.
    pub proof fn lemma_signedness_stays_noted(
        self,
        items: Seq<DeclarationSpecifier>,
        i: int,
        n: int,
    )
        requires
            0 <= i < n <= items.len(),
            items[i] is TypeSpecifier,
            is_signedness(items[i]->TypeSpecifier_0),
        ensures
            self.apply_declaration_specifiers(items.take(n)) matches Ok(noted)
                ==> noted.signed_option is Some,
        decreases n,
    {
        assert(items.take(n).drop_last() =~= items.take(n - 1));
        assert(items.take(n).last() == items[n - 1]);
        if n > i + 1 {
            self.lemma_signedness_stays_noted(items, i, n - 1);
        }
    }

    /// A list of declaration specifiers that holds two signedness keywords is
    /// refused.
    pub proof fn lemma_signedness_twice_is_refused(
        self,
        items: Seq<DeclarationSpecifier>,
        i: int,
        j: int,
    )
        requires
            0 <= i < j < items.len(),
            items[i] is TypeSpecifier,
            is_signedness(items[i]->TypeSpecifier_0),
            items[j] is TypeSpecifier,
            is_signedness(items[j]->TypeSpecifier_0),
        ensures
            self.apply_declaration_specifiers(items) is Err,
    {
        self.lemma_signedness_stays_noted(items, i, j);
        assert(items.take(j + 1).drop_last() =~= items.take(j));
        assert(items.take(j + 1).last() == items[j]);
        assert(self.apply_declaration_specifiers(items.take(j + 1)) is Err);
        self.lemma_declaration_specifiers_first_error(items, j + 1);
    }
}

impl<'a> BaseDtype<'a> {
    /// The record before any specifier.
    pub fn new() -> (r: Self)
        ensures
            r@ == BaseDtypeView::empty(),
    {
        BaseDtype {
            scalar: None,
            size_modifiers: Vec::new(),
            signed_option: None,
            typedef_name: None,
            struct_type: None,
            is_const: false,
            is_typedef: false,
        }
    }

    /// Whether nothing that decides a type has been seen.
    pub fn is_empty(&self) -> (r: bool)
        ensures
            r == self@.is_empty(),
    {
        self.scalar.is_none() && self.size_modifiers.len() == 0 && self.signed_option.is_none()
            && self.typedef_name.is_none() && self.struct_type.is_none() && !self.is_const
    }

    /// The struct specifier whose type the record denotes, if it denotes one.
    pub fn struct_denoted(&self) -> (r: Option<&'a StructType>)
        ensures
            r is Some == self@.denotes_struct(),
            r matches Some(struct_type) ==> self@.struct_type == Some(*struct_type),
    {
        if self.typedef_name.is_none() && self.scalar.is_none() && self.size_modifiers.len() == 0
            && self.signed_option.is_none() {
            self.struct_type
        } else {
            None
        }
    }

    /// Notes a storage-class keyword.
    pub fn apply_storage_class(&mut self, storage_class: &StorageClassSpecifier) -> (r: Result<
        (),
        DtypeError,
    >)
        ensures
            stepped(old(self)@, final(self)@, r, old(self)@.apply_storage_class(*storage_class)),
    {
        match storage_class {
            StorageClassSpecifier::Typedef => {
                self.is_typedef = true;
                Ok(())
            },
            _ => Err(DtypeError::unsupported("storage class other than `typedef`")),
        }
    }

    fn put_signedness(&mut self, signedness: Signedness) -> (r: Result<(), DtypeError>)
        ensures
            stepped(old(self)@, final(self)@, r, old(self)@.put_signedness(signedness)),
    {
        if self.signed_option.is_some() {
            return Err(DtypeError::misc("duplicate signed option"));
        }
        self.signed_option = Some(signedness);
        Ok(())
    }

    fn put_scalar(&mut self, scalar: Scalar) -> (r: Result<(), DtypeError>)
        ensures
            stepped(old(self)@, final(self)@, r, old(self)@.put_scalar(scalar)),
    {
        if self.scalar.is_some() {
            return Err(DtypeError::misc("two or more scalar types in declaration specifiers"));
        }
        self.scalar = Some(scalar);
        Ok(())
    }

    /// Notes a type specifier.
    pub fn apply_type_specifier(&mut self, type_specifier: &'a TypeSpecifier) -> (r: Result<
        (),
        DtypeError,
    >)
        ensures
            stepped(old(self)@, final(self)@, r, old(self)@.apply_type_specifier(*type_specifier)),
    {
        match type_specifier {
            TypeSpecifier::Signed => self.put_signedness(Signedness::Signed),
            TypeSpecifier::Unsigned => self.put_signedness(Signedness::Unsigned),
            TypeSpecifier::Void => self.put_scalar(Scalar::Void),
            TypeSpecifier::Bool => self.put_scalar(Scalar::Bool),
            TypeSpecifier::Char => self.put_scalar(Scalar::Char),
            TypeSpecifier::Int => self.put_scalar(Scalar::Int),
            TypeSpecifier::Float => self.put_scalar(Scalar::Float),
            TypeSpecifier::Double => self.put_scalar(Scalar::Double),
            TypeSpecifier::Short => {
                self.size_modifiers.push(SizeModifier::Short);
                Ok(())
            },
            TypeSpecifier::Long => {
                self.size_modifiers.push(SizeModifier::Long);
                Ok(())
            },
            TypeSpecifier::TypedefName(name) => {
                if self.typedef_name.is_some() {
                    return Err(
                        DtypeError::misc("two or more typedef names in declaration specifiers"),
                    );
                }
                self.typedef_name = Some(name.clone());
                Ok(())
            },
            TypeSpecifier::Struct(struct_type) => {
                if self.struct_type.is_some() {
                    return Err(
                        DtypeError::misc("two or more struct type in declaration specifiers"),
                    );
                }
                self.struct_type = Some(struct_type);
                Ok(())
            },
            _ => Err(DtypeError::unsupported("type specifier")),
        }
    }

    /// Notes a type qualifier.
    pub fn apply_type_qualifier(&mut self, type_qualifier: &TypeQualifier) -> (r: Result<
        (),
        DtypeError,
    >)
        ensures
            stepped(old(self)@, final(self)@, r, old(self)@.apply_type_qualifier(*type_qualifier)),
    {
        match type_qualifier {
            TypeQualifier::Const => {
                self.is_const = true;
                Ok(())
            },
            _ => Err(DtypeError::unsupported("type qualifier other than `const`")),
        }
    }

    /// Notes one item of a specifier-qualifier list.
    pub fn apply_specifier_qualifier(
        &mut self,
        typename_specifier: &'a SpecifierQualifier,
    ) -> (r: Result<(), DtypeError>)
        ensures
            stepped(
                old(self)@,
                final(self)@,
                r,
                old(self)@.apply_specifier_qualifier(*typename_specifier),
            ),
    {
        match typename_specifier {
            SpecifierQualifier::TypeSpecifier(s) => self.apply_type_specifier(s),
            SpecifierQualifier::TypeQualifier(q) => self.apply_type_qualifier(q),
            SpecifierQualifier::Extension => Err(
                DtypeError::unsupported("extension among specifiers"),
            ),
        }
    }

    /// Notes one item of a declaration-specifier list.
    pub fn apply_declaration_specifier(
        &mut self,
        declaration_specifier: &'a DeclarationSpecifier,
    ) -> (r: Result<(), DtypeError>)
        ensures
            stepped(
                old(self)@,
                final(self)@,
                r,
                old(self)@.apply_declaration_specifier(*declaration_specifier),
            ),
    {
        match declaration_specifier {
            DeclarationSpecifier::StorageClass(c) => self.apply_storage_class(c),
            DeclarationSpecifier::TypeSpecifier(s) => self.apply_type_specifier(s),
            DeclarationSpecifier::TypeQualifier(q) => self.apply_type_qualifier(q),
            DeclarationSpecifier::Function => Err(DtypeError::unsupported("function specifier")),
            DeclarationSpecifier::Alignment => Err(DtypeError::unsupported("alignment specifier")),
            DeclarationSpecifier::Extension => Err(
                DtypeError::unsupported("extension among specifiers"),
            ),
        }
    }

    /// Notes a qualifier of a pointer declarator.
    pub fn apply_pointer_qualifier(&mut self, pointer_qualifier: &PointerQualifier) -> (r: Result<
        (),
        DtypeError,
    >)
        ensures
            stepped(
                old(self)@,
                final(self)@,
                r,
                old(self)@.apply_pointer_qualifier(*pointer_qualifier),
            ),
    {
        match pointer_qualifier {
            PointerQualifier::TypeQualifier(q) => self.apply_type_qualifier(q),
            PointerQualifier::Extension => Err(
                DtypeError::unsupported("extension among pointer qualifiers"),
            ),
        }
    }
    /// Notes a specifier-qualifier list, item by item, and stops at the first
    /// item that is refused.
    pub fn apply_specifier_qualifiers(
        &mut self,
        typename_specifiers: &'a [SpecifierQualifier],
    ) -> (r: Result<(), DtypeError>)
        ensures
            match old(self)@.apply_specifier_qualifiers(typename_specifiers@) {
                Ok(b) => r is Ok && final(self)@ == b,
                Err(e) => r is Err && r->Err_0@ == e && old(self)@.stops_in_specifier_qualifiers(
                    typename_specifiers@,
                    final(self)@,
                ),
            },
    {
        let ghost start = self@;
        let ghost items = typename_specifiers@;
        let mut i: usize = 0;
        while i < typename_specifiers.len()
            invariant
                i <= typename_specifiers.len(),
                items == typename_specifiers@,
                start == old(self)@,
                start.apply_specifier_qualifiers(items.take(i as int)) == Ok::<
                    BaseDtypeView,
                    DtypeErrorView,
                >(self@),
            decreases typename_specifiers.len() - i,
        {
            proof {
                assert(items.take(i + 1).drop_last() =~= items.take(i as int));
            }
            match self.apply_specifier_qualifier(&typename_specifiers[i]) {
                Ok(()) => {},
                Err(e) => {
                    proof {
                        assert(items.take(i + 1).last() == items[i as int]);
                        let refused = self@.apply_specifier_qualifier(items[i as int]);
                        assert(start.apply_specifier_qualifiers(items.take(i + 1)) == refused);
                        start.lemma_specifier_qualifiers_first_error(items, i + 1);
                        assert(start.apply_specifier_qualifiers(items.take(i as int)) == Ok::<
                            BaseDtypeView,
                            DtypeErrorView,
                        >(self@));
                    }
                    return Err(e);
                },
            }
            i += 1;
        }
        proof {
            assert(items.take(i as int) =~= items);
        }
        Ok(())
    }

    /// Notes a declaration-specifier list, item by item, and stops at the first
    /// item that is refused.
    pub fn apply_declaration_specifiers(
        &mut self,
        declaration_specifiers: &'a [DeclarationSpecifier],
    ) -> (r: Result<(), DtypeError>)
        ensures
            match old(self)@.apply_declaration_specifiers(declaration_specifiers@) {
                Ok(b) => r is Ok && final(self)@ == b,
                Err(e) => r is Err && r->Err_0@ == e && old(self)@.stops_in_declaration_specifiers(
                    declaration_specifiers@,
                    final(self)@,
                ),
            },
    {
        let ghost start = self@;
        let ghost items = declaration_specifiers@;
        let mut i: usize = 0;
        while i < declaration_specifiers.len()
            invariant
                i <= declaration_specifiers.len(),
                items == declaration_specifiers@,
                start == old(self)@,
                start.apply_declaration_specifiers(items.take(i as int)) == Ok::<
                    BaseDtypeView,
                    DtypeErrorView,
                >(self@),
            decreases declaration_specifiers.len() - i,
        {
            proof {
                assert(items.take(i + 1).drop_last() =~= items.take(i as int));
            }
            match self.apply_declaration_specifier(&declaration_specifiers[i]) {
                Ok(()) => {},
                Err(e) => {
                    proof {
                        assert(items.take(i + 1).last() == items[i as int]);
                        let refused = self@.apply_declaration_specifier(items[i as int]);
                        assert(start.apply_declaration_specifiers(items.take(i + 1)) == refused);
                        start.lemma_declaration_specifiers_first_error(items, i + 1);
                        assert(start.apply_declaration_specifiers(items.take(i as int)) == Ok::<
                            BaseDtypeView,
                            DtypeErrorView,
                        >(self@));
                    }
                    return Err(e);
                },
            }
            i += 1;
        }
        proof {
            assert(items.take(i as int) =~= items);
        }
        Ok(())
    }

    /// Notes the qualifiers of a pointer declarator, one by one, and stops at
    /// the first that is refused.
    pub fn apply_pointer_qualifiers(&mut self, pointer_qualifiers: &[PointerQualifier]) -> (r:
        Result<(), DtypeError>)
        ensures
            match old(self)@.apply_pointer_qualifiers(pointer_qualifiers@) {
                Ok(b) => r is Ok && final(self)@ == b,
                Err(e) => r is Err && r->Err_0@ == e && old(self)@.stops_in_pointer_qualifiers(
                    pointer_qualifiers@,
                    final(self)@,
                ),
            },
    {
        let ghost start = self@;
        let ghost items = pointer_qualifiers@;
        let mut i: usize = 0;
        while i < pointer_qualifiers.len()
            invariant
                i <= pointer_qualifiers.len(),
                items == pointer_qualifiers@,
                start == old(self)@,
                start.apply_pointer_qualifiers(items.take(i as int)) == Ok::<
                    BaseDtypeView,
                    DtypeErrorView,
                >(self@),
            decreases pointer_qualifiers.len() - i,
        {
            proof {
                assert(items.take(i + 1).drop_last() =~= items.take(i as int));
            }
            match self.apply_pointer_qualifier(&pointer_qualifiers[i]) {
                Ok(()) => {},
                Err(e) => {
                    proof {
                        assert(items.take(i + 1).last() == items[i as int]);
                        let refused = self@.apply_pointer_qualifier(items[i as int]);
                        assert(start.apply_pointer_qualifiers(items.take(i + 1)) == refused);
                        start.lemma_pointer_qualifiers_first_error(items, i + 1);
                        assert(start.apply_pointer_qualifiers(items.take(i as int)) == Ok::<
                            BaseDtypeView,
                            DtypeErrorView,
                        >(self@));
                    }
                    return Err(e);
                },
            }
            i += 1;
        }
        proof {
            assert(items.take(i as int) =~= items);
        }
        Ok(())
    }
}

impl<'a> Default for BaseDtype<'a> {
    /// The record before any specifier.
    fn default() -> (r: Self)
        ensures
            r@ == BaseDtypeView::empty(),
    {
        BaseDtype::new()
    }
}

} // verus!
