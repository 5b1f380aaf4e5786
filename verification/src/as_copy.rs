//! A wrapper that gives the three operations to any type that is `Copy`.

use crate::traits::{IntoOwned, ToBorrowed, ToOwned};
use vstd::prelude::*;

verus! {

/// Transparent wrapper for `Copy` types: each of the three operations
/// copies the value.
///
/// Comparison and hashing go by the value inside. `Debug` shows the
/// wrapper around the value.
#[derive(Debug, PartialEq, Eq, PartialOrd, Ord, Hash)]
pub struct AsCopy<T: Copy>(pub T);

impl<T: Copy> ToBorrowed<'_> for AsCopy<T> {
    open spec fn borrowed_as(&self, result: Self) -> bool {
        result.0 == self.0
    }

    fn to_borrowed(&self) -> Self {
        AsCopy(self.0)
    }
}

impl<T: Copy> ToOwned for AsCopy<T> {
    type Owned = AsCopy<T>;

    open spec fn owned_as(&self, result: Self::Owned) -> bool {
        result.0 == self.0
    }

    fn to_owned(&self) -> Self::Owned {
        AsCopy(self.0)
    }
}

impl<T: Copy> IntoOwned for AsCopy<T> {
    type Owned = AsCopy<T>;

    open spec fn turned_into(&self, result: Self::Owned) -> bool {
        result.0 == self.0
    }

    fn into_owned(self) -> Self::Owned {
        AsCopy(self.0)
    }
}

impl<T: Copy> From<T> for AsCopy<T> {
    fn from(value: T) -> (r: Self) {
        AsCopy(value)
    }
}

impl<T: Copy> vstd::std_specs::convert::FromSpecImpl<T> for AsCopy<T> {
    open spec fn obeys_from_spec() -> bool {
        true
    }

    open spec fn from_spec(value: T) -> Self {
        AsCopy(value)
    }
}

impl<T: Copy> core::ops::Deref for AsCopy<T> {
    type Target = T;

    fn deref(&self) -> (r: &T)
        ensures
            *r == self.0,
    {
        &self.0
    }
}

impl<T: Copy> core::ops::DerefMut for AsCopy<T> {
    fn deref_mut(&mut self) -> (r: &mut T)
        ensures
            *r == old(self).0,
            final(self).0 == *final(r),
    {
        &mut self.0
    }
}

impl<T: Copy> core::borrow::BorrowMut<T> for AsCopy<T> {
    fn borrow_mut(&mut self) -> &mut T {
        &mut self.0
    }
}

impl<T: Copy + Default> Default for AsCopy<T> {
    fn default() -> (r: Self)
        ensures
            T::default.ensures((), r.0),
    {
        AsCopy(T::default())
    }
}

impl<T: Copy> core::borrow::Borrow<T> for AsCopy<T> {
    fn borrow(&self) -> &T
        returns
            &self.0,
    {
        &self.0
    }
}

} // verus!
