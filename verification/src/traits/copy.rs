//! The operations for types whose values are copied: references, the unit
//! type, integers, `bool` and `char`.

use crate::traits::{IntoOwned, ToBorrowed, ToOwned};
use vstd::prelude::*;

verus! {

// &

impl<'a, T> ToBorrowed<'a> for &'a T {
    open spec fn borrowed_as(&self, result: Self) -> bool {
        result == *self
    }

    fn to_borrowed(&'a self) -> Self {
        *self
    }
}

// ()

impl ToBorrowed<'_> for () {
    open spec fn borrowed_as(&self, result: Self) -> bool {
        true
    }

    fn to_borrowed(&self) -> Self {
    }
}

impl ToOwned for () {
    type Owned = ();

    open spec fn owned_as(&self, result: Self::Owned) -> bool {
        true
    }

    fn to_owned(&self) -> Self::Owned {
    }
}

impl IntoOwned for () {
    type Owned = ();

    open spec fn turned_into(&self, result: Self::Owned) -> bool {
        true
    }

    fn into_owned(self) -> Self::Owned {
    }
}

// Integers, bool and char

impl ToBorrowed<'_> for u8 {
    open spec fn borrowed_as(&self, result: Self) -> bool {
        result == *self
    }

    fn to_borrowed(&self) -> Self {
        *self
    }
}

impl ToOwned for u8 {
    type Owned = u8;

    open spec fn owned_as(&self, result: Self::Owned) -> bool {
        result == *self
    }

    fn to_owned(&self) -> Self::Owned {
        *self
    }
}

impl IntoOwned for u8 {
    type Owned = u8;

    open spec fn turned_into(&self, result: Self::Owned) -> bool {
        result == *self
    }

    fn into_owned(self) -> Self::Owned {
        self
    }
}

impl ToBorrowed<'_> for u16 {
    open spec fn borrowed_as(&self, result: Self) -> bool {
        result == *self
    }

    fn to_borrowed(&self) -> Self {
        *self
    }
}

impl ToOwned for u16 {
    type Owned = u16;

    open spec fn owned_as(&self, result: Self::Owned) -> bool {
        result == *self
    }

    fn to_owned(&self) -> Self::Owned {
        *self
    }
}

impl IntoOwned for u16 {
    type Owned = u16;

    open spec fn turned_into(&self, result: Self::Owned) -> bool {
        result == *self
    }

    fn into_owned(self) -> Self::Owned {
        self
    }
}

impl ToBorrowed<'_> for u32 {
    open spec fn borrowed_as(&self, result: Self) -> bool {
        result == *self
    }

    fn to_borrowed(&self) -> Self {
        *self
    }
}

impl ToOwned for u32 {
    type Owned = u32;

    open spec fn owned_as(&self, result: Self::Owned) -> bool {
        result == *self
    }

    fn to_owned(&self) -> Self::Owned {
        *self
    }
}

impl IntoOwned for u32 {
    type Owned = u32;

    open spec fn turned_into(&self, result: Self::Owned) -> bool {
        result == *self
    }

    fn into_owned(self) -> Self::Owned {
        self
    }
}

impl ToBorrowed<'_> for u64 {
    open spec fn borrowed_as(&self, result: Self) -> bool {
        result == *self
    }

    fn to_borrowed(&self) -> Self {
        *self
    }
}

impl ToOwned for u64 {
    type Owned = u64;

    open spec fn owned_as(&self, result: Self::Owned) -> bool {
        result == *self
    }

    fn to_owned(&self) -> Self::Owned {
        *self
    }
}

impl IntoOwned for u64 {
    type Owned = u64;

    open spec fn turned_into(&self, result: Self::Owned) -> bool {
        result == *self
    }

    fn into_owned(self) -> Self::Owned {
        self
    }
}

impl ToBorrowed<'_> for u128 {
    open spec fn borrowed_as(&self, result: Self) -> bool {
        result == *self
    }

    fn to_borrowed(&self) -> Self {
        *self
    }
}

impl ToOwned for u128 {
    type Owned = u128;

    open spec fn owned_as(&self, result: Self::Owned) -> bool {
        result == *self
    }

    fn to_owned(&self) -> Self::Owned {
        *self
    }
}

impl IntoOwned for u128 {
    type Owned = u128;

    open spec fn turned_into(&self, result: Self::Owned) -> bool {
        result == *self
    }

    fn into_owned(self) -> Self::Owned {
        self
    }
}

impl ToBorrowed<'_> for usize {
    open spec fn borrowed_as(&self, result: Self) -> bool {
        result == *self
    }

    fn to_borrowed(&self) -> Self {
        *self
    }
}

impl ToOwned for usize {
    type Owned = usize;

    open spec fn owned_as(&self, result: Self::Owned) -> bool {
        result == *self
    }

    fn to_owned(&self) -> Self::Owned {
        *self
    }
}

impl IntoOwned for usize {
    type Owned = usize;

    open spec fn turned_into(&self, result: Self::Owned) -> bool {
        result == *self
    }

    fn into_owned(self) -> Self::Owned {
        self
    }
}

impl ToBorrowed<'_> for i8 {
    open spec fn borrowed_as(&self, result: Self) -> bool {
        result == *self
    }

    fn to_borrowed(&self) -> Self {
        *self
    }
}

impl ToOwned for i8 {
    type Owned = i8;

    open spec fn owned_as(&self, result: Self::Owned) -> bool {
        result == *self
    }

    fn to_owned(&self) -> Self::Owned {
        *self
    }
}

impl IntoOwned for i8 {
    type Owned = i8;

    open spec fn turned_into(&self, result: Self::Owned) -> bool {
        result == *self
    }

    fn into_owned(self) -> Self::Owned {
        self
    }
}

impl ToBorrowed<'_> for i16 {
    open spec fn borrowed_as(&self, result: Self) -> bool {
        result == *self
    }

    fn to_borrowed(&self) -> Self {
        *self
    }
}

impl ToOwned for i16 {
    type Owned = i16;

    open spec fn owned_as(&self, result: Self::Owned) -> bool {
        result == *self
    }

    fn to_owned(&self) -> Self::Owned {
        *self
    }
}

impl IntoOwned for i16 {
    type Owned = i16;

    open spec fn turned_into(&self, result: Self::Owned) -> bool {
        result == *self
    }

    fn into_owned(self) -> Self::Owned {
        self
    }
}

impl ToBorrowed<'_> for i32 {
    open spec fn borrowed_as(&self, result: Self) -> bool {
        result == *self
    }

    fn to_borrowed(&self) -> Self {
        *self
    }
}

impl ToOwned for i32 {
    type Owned = i32;

    open spec fn owned_as(&self, result: Self::Owned) -> bool {
        result == *self
    }

    fn to_owned(&self) -> Self::Owned {
        *self
    }
}

impl IntoOwned for i32 {
    type Owned = i32;

    open spec fn turned_into(&self, result: Self::Owned) -> bool {
        result == *self
    }

    fn into_owned(self) -> Self::Owned {
        self
    }
}

impl ToBorrowed<'_> for i64 {
    open spec fn borrowed_as(&self, result: Self) -> bool {
        result == *self
    }

    fn to_borrowed(&self) -> Self {
        *self
    }
}

impl ToOwned for i64 {
    type Owned = i64;

    open spec fn owned_as(&self, result: Self::Owned) -> bool {
        result == *self
    }

    fn to_owned(&self) -> Self::Owned {
        *self
    }
}

impl IntoOwned for i64 {
    type Owned = i64;

    open spec fn turned_into(&self, result: Self::Owned) -> bool {
        result == *self
    }

    fn into_owned(self) -> Self::Owned {
        self
    }
}

impl ToBorrowed<'_> for i128 {
    open spec fn borrowed_as(&self, result: Self) -> bool {
        result == *self
    }

    fn to_borrowed(&self) -> Self {
        *self
    }
}

impl ToOwned for i128 {
    type Owned = i128;

    open spec fn owned_as(&self, result: Self::Owned) -> bool {
        result == *self
    }

    fn to_owned(&self) -> Self::Owned {
        *self
    }
}

impl IntoOwned for i128 {
    type Owned = i128;

    open spec fn turned_into(&self, result: Self::Owned) -> bool {
        result == *self
    }

    fn into_owned(self) -> Self::Owned {
        self
    }
}

impl ToBorrowed<'_> for isize {
    open spec fn borrowed_as(&self, result: Self) -> bool {
        result == *self
    }

    fn to_borrowed(&self) -> Self {
        *self
    }
}

impl ToOwned for isize {
    type Owned = isize;

    open spec fn owned_as(&self, result: Self::Owned) -> bool {
        result == *self
    }

    fn to_owned(&self) -> Self::Owned {
        *self
    }
}

impl IntoOwned for isize {
    type Owned = isize;

    open spec fn turned_into(&self, result: Self::Owned) -> bool {
        result == *self
    }

    fn into_owned(self) -> Self::Owned {
        self
    }
}

impl ToBorrowed<'_> for bool {
    open spec fn borrowed_as(&self, result: Self) -> bool {
        result == *self
    }

    fn to_borrowed(&self) -> Self {
        *self
    }
}

impl ToOwned for bool {
    type Owned = bool;

    open spec fn owned_as(&self, result: Self::Owned) -> bool {
        result == *self
    }

    fn to_owned(&self) -> Self::Owned {
        *self
    }
}

impl IntoOwned for bool {
    type Owned = bool;

    open spec fn turned_into(&self, result: Self::Owned) -> bool {
        result == *self
    }

    fn into_owned(self) -> Self::Owned {
        self
    }
}

impl ToBorrowed<'_> for char {
    open spec fn borrowed_as(&self, result: Self) -> bool {
        result == *self
    }

    fn to_borrowed(&self) -> Self {
        *self
    }
}

impl ToOwned for char {
    type Owned = char;

    open spec fn owned_as(&self, result: Self::Owned) -> bool {
        result == *self
    }

    fn to_owned(&self) -> Self::Owned {
        *self
    }
}

impl IntoOwned for char {
    type Owned = char;

    open spec fn turned_into(&self, result: Self::Owned) -> bool {
        result == *self
    }

    fn into_owned(self) -> Self::Owned {
        self
    }
}

} // verus!
