//! The three operations, and their implementations for common types.
//!
//! The traits are meant to be called by their paths, since other traits and
//! many types have methods of the same names.
//!
//! Each trait carries a predicate that says what its operation promises of
//! the result. An implementation states its promise by giving the predicate
//! a body; one that gives none promises nothing. The predicates only serve
//! the contracts and are not meant to be called.
//!
//! The operations are implemented for references (`ToBorrowed` only), the
//! unit type, the integers, `bool` and `char` ([`copy`]), for `Cow`,
//! `Option`, `Box` and `Vec` ([`containers`]), for arrays, boxed slices and
//! `VecDeque` ([`sequences`]), for tuples of up to sixteen items
//! ([`tuples`]) and for the hash and tree maps and sets ([`collections`]).
//! Of a map or a set itself nothing is promised: what a conversion of the
//! keys does to the collection is up to the `Hash`, `Eq` and `Ord` of the
//! converted keys. What is promised of its entries stands with the
//! functions that convert them as a list.

use vstd::prelude::*;

pub mod collections;
pub mod containers;
pub mod copy;
pub mod sequences;
pub mod tuples;

verus! {

/// Copy the structure and reference the original values.
///
/// This is always a deep copy of the structure.
pub trait ToBorrowed<'a>: Sized {
    /// What `to_borrowed` promises of its result, for `self`. An
    /// implementation that does not say promises nothing.
    open spec fn borrowed_as(&self, result: Self) -> bool {
        true
    }

    /// Copy the structure and reference the original values.
    ///
    /// This is always a deep copy of the structure.
    #[must_use]
    fn to_borrowed(&'a self) -> (result: Self)
        ensures
            self.borrowed_as(result),
    ;
}

/// Copy the structure and clone the original values.
///
/// This is always a deep copy.
pub trait ToOwned {
    /// The type after obtaining ownership: the same type, with the static
    /// lifetime.
    type Owned;

    /// What `to_owned` promises of its result, for `self`. An
    /// implementation that does not say promises nothing.
    open spec fn owned_as(&self, result: Self::Owned) -> bool {
        true
    }

    /// Copy the structure and clone the original values.
    ///
    /// This is always a deep copy.
    #[must_use]
    fn to_owned(&self) -> (result: Self::Owned)
        ensures
            self.owned_as(result),
    ;
}

/// Copy the structure and clone the original values if it's not owned.
///
/// This is always a deep copy of the structure.
pub trait IntoOwned {
    /// The type after obtaining ownership: the same type, with the static
    /// lifetime.
    type Owned;

    /// What `into_owned` promises of its result, for `self`. An
    /// implementation that does not say promises nothing.
    open spec fn turned_into(&self, result: Self::Owned) -> bool {
        true
    }

    /// Copy the structure and clone the original values if it's not owned.
    ///
    /// This is always a deep copy of the structure.
    #[must_use]
    fn into_owned(self) -> (result: Self::Owned)
        ensures
            self.turned_into(result),
    ;
}

} // verus!
