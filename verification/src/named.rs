//! Values with an optional name.

use vstd::prelude::*;

verus! {

/// A value together with the identifier that a declarator may have bound to it.
#[derive(Debug, Clone, PartialEq, Eq, Hash)]
pub struct Named<T> {
    pub name: Option<String>,
    pub inner: T,
}

/// The mathematical value of a [`Named`]: the name as a sequence of characters,
/// and the view of what is named.
pub struct NamedView<V> {
    pub name: Option<Seq<char>>,
    pub inner: V,
}

/// The characters of an optional identifier.
pub open spec fn name_view(name: Option<String>) -> Option<Seq<char>> {
    match name {
        Some(n) => Some(n@),
        None => None,
    }
}

impl<T: View> View for Named<T> {
    type V = NamedView<T::V>;

    open spec fn view(&self) -> NamedView<T::V> {
        NamedView { name: name_view(self.name), inner: self.inner@ }
    }
}

impl<T> Named<T> {
    /// Pairs `inner` with `name`.
    pub fn new(name: Option<String>, inner: T) -> (r: Self)
        ensures
            r.name == name,
            r.inner == inner,
    {
        Named { name, inner }
    }

    /// The bound identifier, if there is one.
    pub fn name(&self) -> (r: Option<&String>)
        ensures
            r is Some == self.name is Some,
            r matches Some(n) ==> *n == self.name->0,
    {
        match &self.name {
            Some(n) => Some(n),
            None => None,
        }
    }

    /// The named value.
    pub fn inner(&self) -> (r: &T)
        ensures
            *r == self.inner,
    {
        &self.inner
    }

    /// Takes the pair apart.
    pub fn destruct(self) -> (r: (Option<String>, T))
        ensures
            r.0 == self.name,
            r.1 == self.inner,
    {
        (self.name, self.inner)
    }
}

} // verus!
