//! The operations for `Cow`, `Option`, `Box` and `Vec`.

use crate::traits::{IntoOwned, ToBorrowed, ToOwned};
use std::borrow::Cow;
use vstd::prelude::*;

verus! {

// Cow

/// Calls `std::borrow::Borrow::borrow` on the owned form of a `T`. Which
/// value it returns is up to the implementation of `Borrow` for that type,
/// so nothing is claimed of it.
#[verifier::external_body]
fn borrow<T: std::borrow::ToOwned + ?Sized>(owned: &T::Owned) -> &T {
    std::borrow::Borrow::borrow(owned)
}

/// Calls `std::borrow::ToOwned::to_owned` on a `T`. Which value it returns
/// is up to the implementation of `ToOwned` for that type, so nothing is
/// claimed of it.
#[verifier::external_body]
fn clone_owned<T: std::borrow::ToOwned + ?Sized>(value: &T) -> T::Owned {
    std::borrow::ToOwned::to_owned(value)
}

impl<'a, T: std::borrow::ToOwned + ?Sized> ToBorrowed<'a> for Cow<'a, T> {
    /// The result borrows. Where `self` borrows, it borrows the same value.
    open spec fn borrowed_as(&self, result: Self) -> bool {
        &&& result is Borrowed
        &&& self is Borrowed ==> result == *self
    }

    fn to_borrowed(&'a self) -> Self {
        match self {
            Cow::Borrowed(borrowed) => Cow::Borrowed(*borrowed),
            Cow::Owned(owned) => Cow::Borrowed(borrow::<T>(owned)),
        }
    }
}

impl<T: std::borrow::ToOwned + ?Sized + 'static> ToOwned for Cow<'_, T> {
    type Owned = Cow<'static, T>;

    /// The result owns its value.
    open spec fn owned_as(&self, result: Cow<'static, T>) -> bool {
        result is Owned
    }

    fn to_owned(&self) -> Cow<'static, T> {
        match self {
            Cow::Borrowed(borrowed) => Cow::Owned(clone_owned::<T>(*borrowed)),
            Cow::Owned(owned) => Cow::Owned(clone_owned::<T>(borrow::<T>(owned))),
        }
    }
}

impl<T: std::borrow::ToOwned + ?Sized + 'static> IntoOwned for Cow<'_, T> {
    type Owned = Cow<'static, T>;

    /// The result owns its value. Where `self` owns its value, it is the
    /// same value.
    open spec fn turned_into(&self, result: Cow<'static, T>) -> bool {
        &&& result is Owned
        &&& *self matches Cow::Owned(owned) ==> result == Cow::<'static, T>::Owned(owned)
    }

    fn into_owned(self) -> Cow<'static, T> {
        match self {
            Cow::Borrowed(borrowed) => Cow::Owned(clone_owned::<T>(borrowed)),
            Cow::Owned(owned) => Cow::Owned(owned),
        }
    }
}

// Option

impl<'a, T: ToBorrowed<'a>> ToBorrowed<'a> for Option<T> {
    open spec fn borrowed_as(&self, result: Self) -> bool {
        match (*self, result) {
            (Some(value), Some(new)) => value.borrowed_as(new),
            (None, None) => true,
            _ => false,
        }
    }

    fn to_borrowed(&'a self) -> Self {
        match self {
            Some(value) => Some(ToBorrowed::to_borrowed(value)),
            None => None,
        }
    }
}

impl<T: ToOwned> ToOwned for Option<T> {
    type Owned = Option<T::Owned>;

    open spec fn owned_as(&self, result: Self::Owned) -> bool {
        match (*self, result) {
            (Some(value), Some(new)) => value.owned_as(new),
            (None, None) => true,
            _ => false,
        }
    }

    fn to_owned(&self) -> Self::Owned {
        match self {
            Some(value) => Some(ToOwned::to_owned(value)),
            None => None,
        }
    }
}

impl<T: IntoOwned> IntoOwned for Option<T> {
    type Owned = Option<T::Owned>;

    open spec fn turned_into(&self, result: Self::Owned) -> bool {
        match (*self, result) {
            (Some(value), Some(new)) => value.turned_into(new),
            (None, None) => true,
            _ => false,
        }
    }

    fn into_owned(self) -> Self::Owned {
        match self {
            Some(value) => Some(IntoOwned::into_owned(value)),
            None => None,
        }
    }
}

// Box

impl<'a, T: ToBorrowed<'a>> ToBorrowed<'a> for Box<T> {
    open spec fn borrowed_as(&self, result: Self) -> bool {
        (**self).borrowed_as(*result)
    }

    fn to_borrowed(&'a self) -> Self {
        Box::new(ToBorrowed::to_borrowed(&**self))
    }
}

impl<T: ToOwned> ToOwned for Box<T> {
    type Owned = Box<T::Owned>;

    open spec fn owned_as(&self, result: Self::Owned) -> bool {
        (**self).owned_as(*result)
    }

    fn to_owned(&self) -> Self::Owned {
        Box::new(ToOwned::to_owned(&**self))
    }
}

impl<T: IntoOwned> IntoOwned for Box<T> {
    type Owned = Box<T::Owned>;

    open spec fn turned_into(&self, result: Self::Owned) -> bool {
        (**self).turned_into(*result)
    }

    fn into_owned(self) -> Self::Owned {
        Box::new(IntoOwned::into_owned(*self))
    }
}

// Vec

impl<'a, T: ToBorrowed<'a>> ToBorrowed<'a> for Vec<T> {
    open spec fn borrowed_as(&self, result: Self) -> bool {
        &&& result@.len() == self@.len()
        &&& forall|i: int| 0 <= i < self@.len() ==> self@[i].borrowed_as(#[trigger] result@[i])
    }

    fn to_borrowed(&'a self) -> Self {
        let mut result: Vec<T> = Vec::new();
        let mut i: usize = 0;
        while i < self.len()
            invariant
                i <= self.len(),
                result@.len() == i,
                forall|j: int| 0 <= j < i ==> self@[j].borrowed_as(#[trigger] result@[j]),
            decreases self.len() - i,
        {
            result.push(ToBorrowed::to_borrowed(&self[i]));
            i += 1;
        }
        result
    }
}

impl<T: ToOwned> ToOwned for Vec<T> {
    type Owned = Vec<T::Owned>;

    open spec fn owned_as(&self, result: Self::Owned) -> bool {
        &&& result@.len() == self@.len()
        &&& forall|i: int| 0 <= i < self@.len() ==> self@[i].owned_as(#[trigger] result@[i])
    }

    fn to_owned(&self) -> Self::Owned {
        let mut result: Vec<T::Owned> = Vec::new();
        let mut i: usize = 0;
        while i < self.len()
            invariant
                i <= self.len(),
                result@.len() == i,
                forall|j: int| 0 <= j < i ==> self@[j].owned_as(#[trigger] result@[j]),
            decreases self.len() - i,
        {
            result.push(ToOwned::to_owned(&self[i]));
            i += 1;
        }
        result
    }
}

impl<T: IntoOwned> IntoOwned for Vec<T> {
    type Owned = Vec<T::Owned>;

    open spec fn turned_into(&self, result: Self::Owned) -> bool {
        &&& result@.len() == self@.len()
        &&& forall|i: int| 0 <= i < self@.len() ==> self@[i].turned_into(#[trigger] result@[i])
    }

    fn into_owned(self) -> Self::Owned {
        let mut result: Vec<T::Owned> = Vec::new();
        let ghost items = self@;
        for value in it: self.into_iter()
            invariant
                it.seq() == items,
                result@.len() == it.index(),
                forall|j: int| 0 <= j < it.index() ==> items[j].turned_into(#[trigger] result@[j]),
        {
            result.push(IntoOwned::into_owned(value));
        }
        result
    }
}

} // verus!
