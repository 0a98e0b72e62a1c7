//! Typedef names and what they stand for: the environment of a translation
//! unit, and the rewrite that replaces typedef names in a type.

use vstd::prelude::*;
use vstd::string::StringExecFns;
use crate::denotation::Derived;
use crate::derivation::dtype_outcome;
use crate::dtype::{dtypes_view, fields_view, Dtype, DtypeView};
use crate::error::{DtypeError, DtypeErrorView};
use crate::named::{Named, NamedView};

verus! {

/// What typedef names stand for, as a mathematical map.
pub type TypedefMap = Map<Seq<char>, DtypeView>;

/// The type that the latest declaration of `name` among `entries` gives.
pub open spec fn latest(entries: Seq<(String, Dtype)>, name: Seq<char>) -> Option<DtypeView>
    decreases entries.len(),
{
    if entries.len() == 0 {
        None
    } else if entries.last().0@ == name {
        Some(entries.last().1@)
    } else {
        latest(entries.drop_last(), name)
    }
}

/// The message for a typedef name that the environment does not hold.
pub open spec fn unknown_name_message(name: Seq<char>) -> Seq<char> {
    "unknown type name `"@ + name + "`"@
}

/// Whether the constness of every type in the map can be told without looking
/// up a typedef name.
pub open spec fn consts_defined(typedefs: TypedefMap) -> bool {
    forall|name: Seq<char>| #[trigger]
        typedefs.contains_key(name) ==> typedefs[name].const_defined()
}

impl DtypeView {
    /// This type with every typedef name replaced by what `typedefs` holds for
    /// it, made constant where the name was. The first name that `typedefs`
    /// does not hold decides the error. What is put in place of a name is not
    /// searched for names again.
    pub open spec fn resolve_typedefs(self, typedefs: TypedefMap) -> Derived<DtypeView>
        decreases self,
    {
        match self {
            DtypeView::Unit { .. } | DtypeView::Int { .. } | DtypeView::Float { .. } => Ok(self),
            DtypeView::Pointer { inner, is_const } => match inner.resolve_typedefs(typedefs) {
                Err(e) => Err(e),
                Ok(resolved) => Ok(DtypeView::Pointer { inner: Box::new(resolved), is_const }),
            },
            DtypeView::Array { inner, size } => match inner.resolve_typedefs(typedefs) {
                Err(e) => Err(e),
                Ok(resolved) => Ok(DtypeView::Array { inner: Box::new(resolved), size }),
            },
            DtypeView::Struct { name, fields, is_const } => match resolve_fields(
                fields,
                typedefs,
            ) {
                Err(e) => Err(e),
                Ok(resolved) => Ok(DtypeView::Struct { name, fields: resolved, is_const }),
            },
            DtypeView::Function { ret, params } => match ret.resolve_typedefs(typedefs) {
                Err(e) => Err(e),
                Ok(resolved_ret) => match resolve_all(params, typedefs) {
                    Err(e) => Err(e),
                    Ok(resolved) => Ok(
                        DtypeView::Function { ret: Box::new(resolved_ret), params: resolved },
                    ),
                },
            },
            DtypeView::Typedef { name, is_const } => if typedefs.contains_key(name) {
                Ok(typedefs[name].with_const(typedefs[name].is_const() || is_const))
            } else {
                Err(DtypeErrorView::Misc { message: unknown_name_message(name) })
            },
        }
    }
}

/// The fields with their types resolved, names and order kept.
pub open spec fn resolve_fields(fields: Seq<NamedView<DtypeView>>, typedefs: TypedefMap) -> Derived<
    Seq<NamedView<DtypeView>>,
>
    decreases fields,
{
    if fields.len() == 0 {
        Ok(Seq::empty())
    } else {
        match resolve_fields(fields.drop_last(), typedefs) {
            Err(e) => Err(e),
            Ok(resolved) => match fields.last().inner.resolve_typedefs(typedefs) {
                Err(e) => Err(e),
                Ok(dtype) => Ok(
                    resolved.push(NamedView { name: fields.last().name, inner: dtype }),
                ),
            },
        }
    }
}

/// The types resolved, order kept.
pub open spec fn resolve_all(dtypes: Seq<DtypeView>, typedefs: TypedefMap) -> Derived<
    Seq<DtypeView>,
>
    decreases dtypes,
{
    if dtypes.len() == 0 {
        Ok(Seq::empty())
    } else {
        match resolve_all(dtypes.drop_last(), typedefs) {
            Err(e) => Err(e),
            Ok(resolved) => match dtypes.last().resolve_typedefs(typedefs) {
                Err(e) => Err(e),
                Ok(dtype) => Ok(resolved.push(dtype)),
            },
        }
    }
}

/// An error on a prefix of the fields is the error of all the fields.
pub proof fn lemma_resolve_fields_first_error(
    fields: Seq<NamedView<DtypeView>>,
    typedefs: TypedefMap,
    n: int,
)
    requires
        0 <= n <= fields.len(),
        resolve_fields(fields.take(n), typedefs) is Err,
    ensures
        resolve_fields(fields, typedefs) == resolve_fields(fields.take(n), typedefs),
    decreases fields.len(),
{
    if n == fields.len() {
        assert(fields.take(n) =~= fields);
    } else {
        assert(fields.drop_last().take(n) =~= fields.take(n));
        lemma_resolve_fields_first_error(fields.drop_last(), typedefs, n);
    }
}

/// An error on a prefix of the types is the error of all the types.
pub proof fn lemma_resolve_all_first_error(dtypes: Seq<DtypeView>, typedefs: TypedefMap, n: int)
    requires
        0 <= n <= dtypes.len(),
        resolve_all(dtypes.take(n), typedefs) is Err,
    ensures
        resolve_all(dtypes, typedefs) == resolve_all(dtypes.take(n), typedefs),
    decreases dtypes.len(),
{
    if n == dtypes.len() {
        assert(dtypes.take(n) =~= dtypes);
    } else {
        assert(dtypes.drop_last().take(n) =~= dtypes.take(n));
        lemma_resolve_all_first_error(dtypes.drop_last(), typedefs, n);
    }
}

impl DtypeView {
    /// Whether no typedef name stands anywhere in this type.
    pub open spec fn typedef_free(self) -> bool
        decreases self,
    {
        match self {
            DtypeView::Typedef { .. } => false,
            DtypeView::Pointer { inner, .. } => inner.typedef_free(),
            DtypeView::Array { inner, .. } => inner.typedef_free(),
            DtypeView::Struct { fields, .. } => forall|i: int|
                0 <= i < fields.len() ==> (#[trigger] fields[i]).inner.typedef_free(),
            DtypeView::Function { ret, params } => ret.typedef_free() && forall|i: int|
                0 <= i < params.len() ==> (#[trigger] params[i]).typedef_free(),
            _ => true,
        }
    }

    /// A typedef name that the environment does not hold is refused.
    pub proof fn lemma_unknown_name_is_refused(
        name: Seq<char>,
        is_const: bool,
        typedefs: TypedefMap,
    )
        requires
            !typedefs.contains_key(name),
        ensures
            (DtypeView::Typedef { name, is_const }).resolve_typedefs(typedefs) == Err::<
                DtypeView,
                DtypeErrorView,
            >(DtypeErrorView::Misc { message: unknown_name_message(name) }),
    {
    }

    /// A typedef name that the environment holds resolves to what it stands
    /// for, and the result is constant exactly if the name was given as
    /// constant or what it stands for is constant.
    pub proof fn lemma_known_name_constness(name: Seq<char>, is_const: bool, typedefs: TypedefMap)
        requires
            typedefs.contains_key(name),
            typedefs[name].const_defined(),
        ensures
            match (DtypeView::Typedef { name, is_const }).resolve_typedefs(typedefs) {
                Ok(resolved) => {
                    &&& resolved == typedefs[name].with_const(
                        is_const || typedefs[name].is_const(),
                    )
                    &&& resolved.const_defined()
                    &&& resolved.is_const() == (is_const || typedefs[name].is_const())
                },
                Err(_) => false,
            },
    {
        typedefs[name].lemma_with_const(is_const);
    }

    /// Resolving a type in which no typedef name stands changes nothing.
    pub proof fn lemma_resolve_typedef_free(self, typedefs: TypedefMap)
        requires
            self.typedef_free(),
        ensures
            self.resolve_typedefs(typedefs) == Ok::<DtypeView, DtypeErrorView>(self),
        decreases self,
    {
        match self {
            DtypeView::Pointer { inner, .. } => {
                inner.lemma_resolve_typedef_free(typedefs);
            },
            DtypeView::Array { inner, .. } => {
                inner.lemma_resolve_typedef_free(typedefs);
            },
            DtypeView::Struct { fields, .. } => {
                lemma_resolve_fields_typedef_free(fields, typedefs);
            },
            DtypeView::Function { ret, params } => {
                ret.lemma_resolve_typedef_free(typedefs);
                lemma_resolve_all_typedef_free(params, typedefs);
            },
            _ => {},
        }
    }

    /// Resolving against an environment that holds no typedef name within its
    /// types leaves no typedef name in the result.
    pub proof fn lemma_resolved_is_typedef_free(self, typedefs: TypedefMap)
        requires
            forall|name: Seq<char>| #[trigger]
                typedefs.contains_key(name) ==> typedefs[name].typedef_free(),
        ensures
            self.resolve_typedefs(typedefs) matches Ok(resolved) ==> resolved.typedef_free(),
        decreases self,
    {
        match self {
            DtypeView::Pointer { inner, .. } => {
                inner.lemma_resolved_is_typedef_free(typedefs);
            },
            DtypeView::Array { inner, .. } => {
                inner.lemma_resolved_is_typedef_free(typedefs);
            },
            DtypeView::Struct { fields, .. } => {
                lemma_resolved_fields_are_typedef_free(fields, typedefs);
            },
            DtypeView::Function { ret, params } => {
                ret.lemma_resolved_is_typedef_free(typedefs);
                lemma_resolved_all_are_typedef_free(params, typedefs);
            },
            DtypeView::Typedef { name, .. } => {
                if typedefs.contains_key(name) {
                    assert(typedefs[name].typedef_free());
                }
            },
            _ => {},
        }
    }

    /// The constness of a type in which no typedef name stands is defined,
    /// also where the type is a field.
    pub proof fn lemma_typedef_free_const_defined(self)
        requires
            self.typedef_free(),
        ensures
            self.const_defined(),
            self.field_const_defined(),
        decreases self,
    {
        match self {
            DtypeView::Array { inner, .. } => {
                inner.lemma_typedef_free_const_defined();
            },
            DtypeView::Struct { fields, .. } => {
                assert forall|i: int| 0 <= i < fields.len() implies (
                #[trigger] fields[i]).inner.field_const_defined() by {
                    fields[i].inner.lemma_typedef_free_const_defined();
                }
            },
            _ => {},
        }
    }
}

/// Resolving fields in whose types no typedef name stands changes nothing.
pub proof fn lemma_resolve_fields_typedef_free(
    fields: Seq<NamedView<DtypeView>>,
    typedefs: TypedefMap,
)
    requires
        forall|i: int| 0 <= i < fields.len() ==> (#[trigger] fields[i]).inner.typedef_free(),
    ensures
        resolve_fields(fields, typedefs) == Ok::<Seq<NamedView<DtypeView>>, DtypeErrorView>(
            fields,
        ),
    decreases fields,
{
    if fields.len() > 0 {
        let front = fields.drop_last();
        assert forall|i: int| 0 <= i < front.len() implies front[i].inner.typedef_free() by {
            assert(front[i] == fields[i]);
        }
        lemma_resolve_fields_typedef_free(front, typedefs);
        assert(fields.last() == fields[fields.len() - 1]);
        fields.last().inner.lemma_resolve_typedef_free(typedefs);
        assert(front.push(NamedView { name: fields.last().name, inner: fields.last().inner })
            =~= fields);
    } else {
        assert(fields =~= Seq::empty());
    }
}

/// Resolving types in which no typedef name stands changes nothing.
pub proof fn lemma_resolve_all_typedef_free(dtypes: Seq<DtypeView>, typedefs: TypedefMap)
    requires
        forall|i: int| 0 <= i < dtypes.len() ==> (#[trigger] dtypes[i]).typedef_free(),
    ensures
        resolve_all(dtypes, typedefs) == Ok::<Seq<DtypeView>, DtypeErrorView>(dtypes),
    decreases dtypes,
{
    if dtypes.len() > 0 {
        let front = dtypes.drop_last();
        assert forall|i: int| 0 <= i < front.len() implies (#[trigger] front[i]).typedef_free() by {
            assert(front[i] == dtypes[i]);
        }
        lemma_resolve_all_typedef_free(front, typedefs);
        assert(dtypes.last() == dtypes[dtypes.len() - 1]);
        dtypes.last().lemma_resolve_typedef_free(typedefs);
        assert(front.push(dtypes.last()) =~= dtypes);
    } else {
        assert(dtypes =~= Seq::empty());
    }
}

/// Resolved fields keep their number, names and order, and hold no typedef
/// name where the environment holds none.
pub proof fn lemma_resolved_fields_are_typedef_free(
    fields: Seq<NamedView<DtypeView>>,
    typedefs: TypedefMap,
)
    requires
        forall|name: Seq<char>| #[trigger]
            typedefs.contains_key(name) ==> typedefs[name].typedef_free(),
    ensures
        resolve_fields(fields, typedefs) matches Ok(resolved) ==> resolved.len() == fields.len()
            && forall|i: int|
            0 <= i < resolved.len() ==> (#[trigger] resolved[i]).inner.typedef_free()
                && resolved[i].name == fields[i].name,
    decreases fields,
{
    if fields.len() > 0 {
        lemma_resolved_fields_are_typedef_free(fields.drop_last(), typedefs);
        assert(fields.last() == fields[fields.len() - 1]);
        fields.last().inner.lemma_resolved_is_typedef_free(typedefs);
    }
}

/// Resolved types keep their number and order, and hold no typedef name where
/// the environment holds none.
pub proof fn lemma_resolved_all_are_typedef_free(dtypes: Seq<DtypeView>, typedefs: TypedefMap)
    requires
        forall|name: Seq<char>| #[trigger]
            typedefs.contains_key(name) ==> typedefs[name].typedef_free(),
    ensures
        resolve_all(dtypes, typedefs) matches Ok(resolved) ==> resolved.len() == dtypes.len()
            && forall|i: int| 0 <= i < resolved.len() ==> (#[trigger] resolved[i]).typedef_free(),
    decreases dtypes,
{
    if dtypes.len() > 0 {
        lemma_resolved_all_are_typedef_free(dtypes.drop_last(), typedefs);
        assert(dtypes.last() == dtypes[dtypes.len() - 1]);
        dtypes.last().lemma_resolved_is_typedef_free(typedefs);
    }
}

/// The typedef names that are visible at some point of a translation unit,
/// each with the type it stands for. A later declaration of a name replaces an
/// earlier one.
pub struct Typedefs {
    entries: Vec<(String, Dtype)>,
}

impl View for Typedefs {
    type V = TypedefMap;

    closed spec fn view(&self) -> TypedefMap {
        Map::new(
            |name: Seq<char>| latest(self.entries@, name) is Some,
            |name: Seq<char>| latest(self.entries@, name)->0,
        )
    }
}

impl Typedefs {
    /// Whether the constness of every type held can be told without looking
    /// up a typedef name, as it can of every type in which no typedef name
    /// stands.
    pub open spec fn wf(&self) -> bool {
        consts_defined(self@)
    }

    /// The environment that holds no name.
    pub fn new() -> (r: Self)
        ensures
            r@ == TypedefMap::empty(),
            r.wf(),
    {
        let r = Typedefs { entries: Vec::new() };
        assert(r@ =~= TypedefMap::empty());
        r
    }

    /// Declares `name` to stand for `dtype`.
    pub fn insert(&mut self, name: String, dtype: Dtype)
        requires
            old(self).wf(),
            dtype@.const_defined(),
        ensures
            final(self)@ == old(self)@.insert(name@, dtype@),
            final(self).wf(),
    {
        self.entries.push((name, dtype));
        assert(self.entries@.drop_last() =~= old(self).entries@);
        assert(self@ =~= old(self)@.insert(name@, dtype@));
    }

    /// The type that `name` stands for, if the environment holds the name.
    pub fn get(&self, name: &String) -> (r: Option<&Dtype>)
        ensures
            r is Some == self@.contains_key(name@),
            r matches Some(dtype) ==> dtype@ == self@[name@],
    {
        let mut i: usize = self.entries.len();
        assert(self.entries@.take(i as int) =~= self.entries@);
        while i > 0
            invariant
                i <= self.entries.len(),
                latest(self.entries@, name@) == latest(self.entries@.take(i as int), name@),
            decreases i,
        {
            proof {
                assert(self.entries@.take(i as int).drop_last() =~= self.entries@.take(i - 1));
            }
            i -= 1;
            if self.entries[i].0 == *name {
                return Some(&self.entries[i].1);
            }
        }
        None
    }
}

/// A copy of an optional identifier.
fn copy_of(name: &Option<String>) -> (r: Option<String>)
    ensures
        r == *name,
{
    match name {
        Some(n) => Some(n.clone()),
        None => None,
    }
}

impl Dtype {
    /// Replaces every typedef name in this type by what `typedefs` holds for
    /// it; a name that it does not hold is an error.
    pub fn resolve_typedefs(self, typedefs: &Typedefs) -> (r: Result<Dtype, DtypeError>)
        requires
            typedefs.wf(),
        ensures
            dtype_outcome(r) == self@.resolve_typedefs(typedefs@),
    {
        self.resolved(typedefs)
    }

    /// This type with its typedef names resolved.
    #[verifier::loop_isolation(false)]
    fn resolved(&self, typedefs: &Typedefs) -> (r: Result<Dtype, DtypeError>)
        requires
            typedefs.wf(),
        ensures
            dtype_outcome(r) == self@.resolve_typedefs(typedefs@),
        decreases self,
    {
        match self {
            Self::Unit { .. } | Self::Int { .. } | Self::Float { .. } => Ok(self.clone()),
            Self::Pointer { inner, is_const } => match inner.resolved(typedefs) {
                Ok(resolved) => Ok(Self::pointer(resolved).set_const(*is_const)),
                Err(e) => Err(e),
            },
            Self::Array { inner, size } => match inner.resolved(typedefs) {
                Ok(resolved) => Ok(Self::Array { inner: Box::new(resolved), size: *size }),
                Err(e) => Err(e),
            },
            Self::Struct { name, fields, is_const } => {
                let ghost all = self@->Struct_fields;
                let mut resolved: Vec<Named<Dtype>> = Vec::new();
                let mut i: usize = 0;
                assert(fields_view(resolved@) =~= Seq::empty());
                while i < fields.len()
                    invariant
                        i <= fields.len(),
                        resolve_fields(all.take(i as int), typedefs@) == Ok::<
                            Seq<NamedView<DtypeView>>,
                            DtypeErrorView,
                        >(fields_view(resolved@)),
                    decreases fields.len() - i,
                {
                    proof {
                        assert(all.take(i + 1).drop_last() =~= all.take(i as int));
                        assert(all.take(i + 1).last() == all[i as int]);
                        assert(all[i as int] == fields@[i as int]@);
                    }
                    match fields[i].inner.resolved(typedefs) {
                        Ok(dtype) => {
                            let ghost before = fields_view(resolved@);
                            let named = Named::new(copy_of(&fields[i].name), dtype);
                            resolved.push(named);
                            assert(fields_view(resolved@) =~= before.push(named@));
                        },
                        Err(e) => {
                            proof {
                                lemma_resolve_fields_first_error(all, typedefs@, i + 1);
                            }
                            return Err(e);
                        },
                    }
                    i += 1;
                }
                proof {
                    assert(all.take(i as int) =~= all);
                }
                Ok(Self::structure(copy_of(name), resolved).set_const(*is_const))
            },
            Self::Function { ret, params } => {
                let resolved_ret = match ret.resolved(typedefs) {
                    Ok(resolved) => resolved,
                    Err(e) => {
                        return Err(e);
                    },
                };
                let ghost all = self@->params;
                let mut resolved: Vec<Dtype> = Vec::new();
                let mut i: usize = 0;
                assert(dtypes_view(resolved@) =~= Seq::empty());
                while i < params.len()
                    invariant
                        i <= params.len(),
                        resolve_all(all.take(i as int), typedefs@) == Ok::<
                            Seq<DtypeView>,
                            DtypeErrorView,
                        >(dtypes_view(resolved@)),
                    decreases params.len() - i,
                {
                    proof {
                        assert(all.take(i + 1).drop_last() =~= all.take(i as int));
                        assert(all.take(i + 1).last() == all[i as int]);
                        assert(all[i as int] == params@[i as int]@);
                    }
                    match params[i].resolved(typedefs) {
                        Ok(dtype) => {
                            let ghost before = dtypes_view(resolved@);
                            resolved.push(dtype);
                            assert(dtypes_view(resolved@) =~= before.push(dtype@));
                        },
                        Err(e) => {
                            proof {
                                lemma_resolve_all_first_error(all, typedefs@, i + 1);
                            }
                            return Err(e);
                        },
                    }
                    i += 1;
                }
                proof {
                    assert(all.take(i as int) =~= all);
                }
                Ok(Self::function(resolved_ret, resolved))
            },
            Self::Typedef { name, is_const } => match typedefs.get(name) {
                Some(found) => {
                    let is_const = found.is_const() || *is_const;
                    Ok(found.clone().set_const(is_const))
                },
                None => {
                    let mut message = "unknown type name `".to_owned();
                    message.append(name.as_str());
                    message.append("`");
                    Err(DtypeError::Misc { message })
                },
            },
        }
    }
}

} // verus!
