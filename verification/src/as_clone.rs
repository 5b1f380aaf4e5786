//! A wrapper that gives the three operations to any type that is `Clone`.

use crate::traits::{IntoOwned, ToBorrowed, ToOwned};
use vstd::prelude::*;

verus! {

/// Transparent wrapper for `Clone` types: `to_borrowed` and `to_owned`
/// clone the value, `into_owned` hands it on.
///
/// Comparison and hashing go by the value inside. `Debug` shows the
/// wrapper around the value.
#[derive(Debug, PartialEq, Eq, PartialOrd, Ord, Hash)]
pub struct AsClone<T: Clone>(pub T);

impl<T: Clone> ToBorrowed<'_> for AsClone<T> {
    open spec fn borrowed_as(&self, result: Self) -> bool {
        cloned(self.0, result.0)
    }

    fn to_borrowed(&self) -> Self {
        AsClone(self.0.clone())
    }
}

impl<T: Clone> ToOwned for AsClone<T> {
    type Owned = AsClone<T>;

    open spec fn owned_as(&self, result: Self::Owned) -> bool {
        cloned(self.0, result.0)
    }

    fn to_owned(&self) -> Self::Owned {
        AsClone(self.0.clone())
    }
}

impl<T: Clone> IntoOwned for AsClone<T> {
    type Owned = AsClone<T>;

    open spec fn turned_into(&self, result: Self::Owned) -> bool {
        result.0 == self.0
    }

    fn into_owned(self) -> Self::Owned {
        AsClone(self.0)
    }
}

impl<T: Clone> From<T> for AsClone<T> {
    fn from(value: T) -> (r: Self) {
        AsClone(value)
    }
}

impl<T: Clone> vstd::std_specs::convert::FromSpecImpl<T> for AsClone<T> {
    open spec fn obeys_from_spec() -> bool {
        true
    }

    open spec fn from_spec(value: T) -> Self {
        AsClone(value)
    }
}

impl<T: Clone> core::ops::Deref for AsClone<T> {
    type Target = T;

    fn deref(&self) -> (r: &T)
        ensures
            *r == self.0,
    {
        &self.0
    }
}

impl<T: Clone> core::ops::DerefMut for AsClone<T> {
    fn deref_mut(&mut self) -> (r: &mut T)
        ensures
            *r == old(self).0,
            final(self).0 == *final(r),
    {
        &mut self.0
    }
}

impl<T: Clone> core::borrow::BorrowMut<T> for AsClone<T> {
    fn borrow_mut(&mut self) -> &mut T {
        &mut self.0
    }
}

impl<T: Clone + Default> Default for AsClone<T> {
    fn default() -> (r: Self)
        ensures
            T::default.ensures((), r.0),
    {
        AsClone(T::default())
    }
}

impl<T: Clone> core::borrow::Borrow<T> for AsClone<T> {
    fn borrow(&self) -> &T
        returns
            &self.0,
    {
        &self.0
    }
}

impl From<&str> for AsClone<String> {
    fn from(value: &str) -> (r: Self)
        ensures
            r.0@ == value@,
    {
        AsClone(value.to_owned())
    }
}

impl vstd::std_specs::convert::FromSpecImpl<&str> for AsClone<String> {
    open spec fn obeys_from_spec() -> bool {
        false
    }

    open spec fn from_spec(value: &str) -> Self {
        arbitrary()
    }
}

} // verus!
