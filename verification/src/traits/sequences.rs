//! The operations for fixed-size arrays, boxed slices and `VecDeque`: each
//! item is handled by its own implementation, and the order is kept.

use crate::traits::{IntoOwned, ToBorrowed, ToOwned};
use std::collections::VecDeque;
use vstd::prelude::*;

verus! {

/// Calls `TryFrom<Vec<T>>` for `[T; N]`, which hands the items of the list
/// over as an array if the list has exactly `N` items, and fails otherwise.
#[verifier::external_body]
fn into_array<T, const N: usize>(items: Vec<T>) -> (array: Result<[T; N], Vec<T>>)
    ensures
        array is Ok <==> items@.len() == N,
        array is Ok ==> array->Ok_0@ == items@,
{
    <[T; N]>::try_from(items)
}

/// Calls `From<[T; N]>` for `Vec<T>`, which moves the items of the array
/// into a list, in their order.
#[verifier::external_body]
fn from_array<T, const N: usize>(array: [T; N]) -> (items: Vec<T>)
    ensures
        items@ == array@,
{
    Vec::from(array)
}

/// Calls `Vec::into_boxed_slice`, which hands the items of the list over as
/// a boxed slice.
#[verifier::external_body]
fn into_boxed_slice<T>(items: Vec<T>) -> (slice: Box<[T]>)
    ensures
        slice@ == items@,
{
    items.into_boxed_slice()
}

/// Whether every item of `new` is what `to_borrowed` promises for the item
/// of `old` at the same place.
pub open spec fn each_borrowed_as<'a, T: ToBorrowed<'a>>(old: Seq<T>, new: Seq<T>) -> bool {
    &&& new.len() == old.len()
    &&& forall|i: int| 0 <= i < old.len() ==> old[i].borrowed_as(#[trigger] new[i])
}

/// Whether every item of `new` is what `to_owned` promises for the item of
/// `old` at the same place.
pub open spec fn each_owned_as<T: ToOwned>(old: Seq<T>, new: Seq<T::Owned>) -> bool {
    &&& new.len() == old.len()
    &&& forall|i: int| 0 <= i < old.len() ==> old[i].owned_as(#[trigger] new[i])
}

/// Whether every item of `new` is what `into_owned` promises for the item
/// of `old` at the same place.
pub open spec fn each_turned_into<T: IntoOwned>(old: Seq<T>, new: Seq<T::Owned>) -> bool {
    &&& new.len() == old.len()
    &&& forall|i: int| 0 <= i < old.len() ==> old[i].turned_into(#[trigger] new[i])
}

/// Converts every item of a list to its owned form, in their order.
pub fn list_into_owned<T: IntoOwned>(items: Vec<T>) -> (result: Vec<T::Owned>)
    ensures
        each_turned_into(items@, result@),
{
    let mut result: Vec<T::Owned> = Vec::new();
    let ghost old = items@;
    for value in it: items.into_iter()
        invariant
            it.seq() == old,
            result@.len() == it.index(),
            forall|j: int| 0 <= j < it.index() ==> old[j].turned_into(#[trigger] result@[j]),
    {
        result.push(IntoOwned::into_owned(value));
    }
    result
}

// Arrays

impl<'a, T: ToBorrowed<'a>, const N: usize> ToBorrowed<'a> for [T; N] {
    open spec fn borrowed_as(&self, result: Self) -> bool {
        each_borrowed_as(self@, result@)
    }

    fn to_borrowed(&'a self) -> Self {
        let mut items: Vec<T> = Vec::new();
        let mut i: usize = 0;
        while i < N
            invariant
                i <= N,
                self@.len() == N,
                items@.len() == i,
                forall|j: int| 0 <= j < i ==> self@[j].borrowed_as(#[trigger] items@[j]),
            decreases N - i,
        {
            items.push(ToBorrowed::to_borrowed(&self[i]));
            i += 1;
        }
        match into_array(items) {
            Ok(array) => array,
            Err(_) => unreached(),
        }
    }
}

impl<T: ToOwned, const N: usize> ToOwned for [T; N] {
    type Owned = [T::Owned; N];

    open spec fn owned_as(&self, result: Self::Owned) -> bool {
        each_owned_as(self@, result@)
    }

    fn to_owned(&self) -> Self::Owned {
        let mut items: Vec<T::Owned> = Vec::new();
        let mut i: usize = 0;
        while i < N
            invariant
                i <= N,
                self@.len() == N,
                items@.len() == i,
                forall|j: int| 0 <= j < i ==> self@[j].owned_as(#[trigger] items@[j]),
            decreases N - i,
        {
            items.push(ToOwned::to_owned(&self[i]));
            i += 1;
        }
        match into_array(items) {
            Ok(array) => array,
            Err(_) => unreached(),
        }
    }
}

impl<T: IntoOwned, const N: usize> IntoOwned for [T; N] {
    type Owned = [T::Owned; N];

    open spec fn turned_into(&self, result: Self::Owned) -> bool {
        each_turned_into(self@, result@)
    }

    fn into_owned(self) -> Self::Owned {
        let ghost old = self@;
        assert(old.len() == N);
        let items = list_into_owned(from_array(self));
        match into_array(items) {
            Ok(array) => array,
            Err(_) => unreached(),
        }
    }
}

// Box<[T]>

impl<'a, T: ToBorrowed<'a>> ToBorrowed<'a> for Box<[T]> {
    open spec fn borrowed_as(&self, result: Self) -> bool {
        each_borrowed_as(self@, result@)
    }

    fn to_borrowed(&'a self) -> Self {
        let mut items: Vec<T> = Vec::new();
        let mut i: usize = 0;
        while i < self.len()
            invariant
                i <= self@.len(),
                items@.len() == i,
                forall|j: int| 0 <= j < i ==> self@[j].borrowed_as(#[trigger] items@[j]),
            decreases self@.len() - i,
        {
            items.push(ToBorrowed::to_borrowed(&self[i]));
            i += 1;
        }
        into_boxed_slice(items)
    }
}

impl<T: ToOwned> ToOwned for Box<[T]> {
    type Owned = Box<[T::Owned]>;

    open spec fn owned_as(&self, result: Self::Owned) -> bool {
        each_owned_as(self@, result@)
    }

    fn to_owned(&self) -> Self::Owned {
        let mut items: Vec<T::Owned> = Vec::new();
        let mut i: usize = 0;
        while i < self.len()
            invariant
                i <= self@.len(),
                items@.len() == i,
                forall|j: int| 0 <= j < i ==> self@[j].owned_as(#[trigger] items@[j]),
            decreases self@.len() - i,
        {
            items.push(ToOwned::to_owned(&self[i]));
            i += 1;
        }
        into_boxed_slice(items)
    }
}

impl<T: IntoOwned> IntoOwned for Box<[T]> {
    type Owned = Box<[T::Owned]>;

    open spec fn turned_into(&self, result: Self::Owned) -> bool {
        each_turned_into(self@, result@)
    }

    fn into_owned(self) -> Self::Owned {
        into_boxed_slice(list_into_owned(self.into_vec()))
    }
}

// VecDeque

impl<'a, T: ToBorrowed<'a>> ToBorrowed<'a> for VecDeque<T> {
    open spec fn borrowed_as(&self, result: Self) -> bool {
        each_borrowed_as(self@, result@)
    }

    fn to_borrowed(&'a self) -> Self {
        let mut result: VecDeque<T> = VecDeque::new();
        let mut i: usize = 0;
        while i < self.len()
            invariant
                i <= self@.len(),
                result@.len() == i,
                forall|j: int| 0 <= j < i ==> self@[j].borrowed_as(#[trigger] result@[j]),
            decreases self@.len() - i,
        {
            result.push_back(ToBorrowed::to_borrowed(&self[i]));
            i += 1;
        }
        result
    }
}

impl<T: ToOwned> ToOwned for VecDeque<T> {
    type Owned = VecDeque<T::Owned>;

    open spec fn owned_as(&self, result: Self::Owned) -> bool {
        each_owned_as(self@, result@)
    }

    fn to_owned(&self) -> Self::Owned {
        let mut result: VecDeque<T::Owned> = VecDeque::new();
        let mut i: usize = 0;
        while i < self.len()
            invariant
                i <= self@.len(),
                result@.len() == i,
                forall|j: int| 0 <= j < i ==> self@[j].owned_as(#[trigger] result@[j]),
            decreases self@.len() - i,
        {
            result.push_back(ToOwned::to_owned(&self[i]));
            i += 1;
        }
        result
    }
}

impl<T: IntoOwned> IntoOwned for VecDeque<T> {
    type Owned = VecDeque<T::Owned>;

    open spec fn turned_into(&self, result: Self::Owned) -> bool {
        each_turned_into(self@, result@)
    }

    fn into_owned(self) -> Self::Owned {
        let ghost old = self@;
        let mut rest = self;
        let mut result: VecDeque<T::Owned> = VecDeque::new();
        while rest.len() > 0
            invariant
                result@.len() + rest@.len() == old.len(),
                forall|j: int|
                    0 <= j < rest@.len() ==> (#[trigger] rest@[j]) == old[result@.len() + j],
                forall|j: int| 0 <= j < result@.len() ==> old[j].turned_into(#[trigger] result@[j]),
            decreases rest@.len(),
        {
            match rest.pop_front() {
                Some(value) => {
                    result.push_back(IntoOwned::into_owned(value));
                },
                None => {},
            }
        }
        result
    }
}

} // verus!
