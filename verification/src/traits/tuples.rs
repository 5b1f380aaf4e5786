//! The operations for tuples of up to sixteen items: each item is handled
//! by its own implementation.

use crate::traits::{IntoOwned, ToBorrowed, ToOwned};
use vstd::prelude::*;

verus! {

impl<'a, T0: ToBorrowed<'a>> ToBorrowed<'a> for (T0,) {
    open spec fn borrowed_as(&self, result: Self) -> bool {
        &&& self.0.borrowed_as(result.0)
    }

    fn to_borrowed(&'a self) -> Self {
        (ToBorrowed::to_borrowed(&self.0),)
    }
}

impl<T0: ToOwned> ToOwned for (T0,) {
    type Owned = (T0::Owned,);

    open spec fn owned_as(&self, result: Self::Owned) -> bool {
        &&& self.0.owned_as(result.0)
    }

    fn to_owned(&self) -> Self::Owned {
        (ToOwned::to_owned(&self.0),)
    }
}

impl<T0: IntoOwned> IntoOwned for (T0,) {
    type Owned = (T0::Owned,);

    open spec fn turned_into(&self, result: Self::Owned) -> bool {
        &&& self.0.turned_into(result.0)
    }

    fn into_owned(self) -> Self::Owned {
        (IntoOwned::into_owned(self.0),)
    }
}

impl<'a, T0: ToBorrowed<'a>, T1: ToBorrowed<'a>> ToBorrowed<'a> for (T0, T1) {
    open spec fn borrowed_as(&self, result: Self) -> bool {
        &&& self.0.borrowed_as(result.0)
        &&& self.1.borrowed_as(result.1)
    }

    fn to_borrowed(&'a self) -> Self {
        (ToBorrowed::to_borrowed(&self.0), ToBorrowed::to_borrowed(&self.1))
    }
}

impl<T0: ToOwned, T1: ToOwned> ToOwned for (T0, T1) {
    type Owned = (T0::Owned, T1::Owned);

    open spec fn owned_as(&self, result: Self::Owned) -> bool {
        &&& self.0.owned_as(result.0)
        &&& self.1.owned_as(result.1)
    }

    fn to_owned(&self) -> Self::Owned {
        (ToOwned::to_owned(&self.0), ToOwned::to_owned(&self.1))
    }
}

impl<T0: IntoOwned, T1: IntoOwned> IntoOwned for (T0, T1) {
    type Owned = (T0::Owned, T1::Owned);

    open spec fn turned_into(&self, result: Self::Owned) -> bool {
        &&& self.0.turned_into(result.0)
        &&& self.1.turned_into(result.1)
    }

    fn into_owned(self) -> Self::Owned {
        (IntoOwned::into_owned(self.0), IntoOwned::into_owned(self.1))
    }
}

impl<
    'a,
    T0: ToBorrowed<'a>,
    T1: ToBorrowed<'a>,
    T2: ToBorrowed<'a>,
> ToBorrowed<'a> for (T0, T1, T2) {
    open spec fn borrowed_as(&self, result: Self) -> bool {
        &&& self.0.borrowed_as(result.0)
        &&& self.1.borrowed_as(result.1)
        &&& self.2.borrowed_as(result.2)
    }

    fn to_borrowed(&'a self) -> Self {
        (
            ToBorrowed::to_borrowed(&self.0),
            ToBorrowed::to_borrowed(&self.1),
            ToBorrowed::to_borrowed(&self.2),
        )
    }
}

impl<T0: ToOwned, T1: ToOwned, T2: ToOwned> ToOwned for (T0, T1, T2) {
    type Owned = (T0::Owned, T1::Owned, T2::Owned);

    open spec fn owned_as(&self, result: Self::Owned) -> bool {
        &&& self.0.owned_as(result.0)
        &&& self.1.owned_as(result.1)
        &&& self.2.owned_as(result.2)
    }

    fn to_owned(&self) -> Self::Owned {
        (ToOwned::to_owned(&self.0), ToOwned::to_owned(&self.1), ToOwned::to_owned(&self.2))
    }
}

impl<T0: IntoOwned, T1: IntoOwned, T2: IntoOwned> IntoOwned for (T0, T1, T2) {
    type Owned = (T0::Owned, T1::Owned, T2::Owned);

    open spec fn turned_into(&self, result: Self::Owned) -> bool {
        &&& self.0.turned_into(result.0)
        &&& self.1.turned_into(result.1)
        &&& self.2.turned_into(result.2)
    }

    fn into_owned(self) -> Self::Owned {
        (
            IntoOwned::into_owned(self.0),
            IntoOwned::into_owned(self.1),
            IntoOwned::into_owned(self.2),
        )
    }
}

impl<
    'a,
    T0: ToBorrowed<'a>,
    T1: ToBorrowed<'a>,
    T2: ToBorrowed<'a>,
    T3: ToBorrowed<'a>,
> ToBorrowed<'a> for (T0, T1, T2, T3) {
    open spec fn borrowed_as(&self, result: Self) -> bool {
        &&& self.0.borrowed_as(result.0)
        &&& self.1.borrowed_as(result.1)
        &&& self.2.borrowed_as(result.2)
        &&& self.3.borrowed_as(result.3)
    }

    fn to_borrowed(&'a self) -> Self {
        (
            ToBorrowed::to_borrowed(&self.0),
            ToBorrowed::to_borrowed(&self.1),
            ToBorrowed::to_borrowed(&self.2),
            ToBorrowed::to_borrowed(&self.3),
        )
    }
}

impl<T0: ToOwned, T1: ToOwned, T2: ToOwned, T3: ToOwned> ToOwned for (T0, T1, T2, T3) {
    type Owned = (T0::Owned, T1::Owned, T2::Owned, T3::Owned);

    open spec fn owned_as(&self, result: Self::Owned) -> bool {
        &&& self.0.owned_as(result.0)
        &&& self.1.owned_as(result.1)
        &&& self.2.owned_as(result.2)
        &&& self.3.owned_as(result.3)
    }

    fn to_owned(&self) -> Self::Owned {
        (
            ToOwned::to_owned(&self.0),
            ToOwned::to_owned(&self.1),
            ToOwned::to_owned(&self.2),
            ToOwned::to_owned(&self.3),
        )
    }
}

impl<
    T0: IntoOwned,
    T1: IntoOwned,
    T2: IntoOwned,
    T3: IntoOwned,
> IntoOwned for (T0, T1, T2, T3) {
    type Owned = (T0::Owned, T1::Owned, T2::Owned, T3::Owned);

    open spec fn turned_into(&self, result: Self::Owned) -> bool {
        &&& self.0.turned_into(result.0)
        &&& self.1.turned_into(result.1)
        &&& self.2.turned_into(result.2)
        &&& self.3.turned_into(result.3)
    }

    fn into_owned(self) -> Self::Owned {
        (
            IntoOwned::into_owned(self.0),
            IntoOwned::into_owned(self.1),
            IntoOwned::into_owned(self.2),
            IntoOwned::into_owned(self.3),
        )
    }
}

impl<
    'a,
    T0: ToBorrowed<'a>,
    T1: ToBorrowed<'a>,
    T2: ToBorrowed<'a>,
    T3: ToBorrowed<'a>,
    T4: ToBorrowed<'a>,
> ToBorrowed<'a> for (T0, T1, T2, T3, T4) {
    open spec fn borrowed_as(&self, result: Self) -> bool {
        &&& self.0.borrowed_as(result.0)
        &&& self.1.borrowed_as(result.1)
        &&& self.2.borrowed_as(result.2)
        &&& self.3.borrowed_as(result.3)
        &&& self.4.borrowed_as(result.4)
    }

    fn to_borrowed(&'a self) -> Self {
        (
            ToBorrowed::to_borrowed(&self.0),
            ToBorrowed::to_borrowed(&self.1),
            ToBorrowed::to_borrowed(&self.2),
            ToBorrowed::to_borrowed(&self.3),
            ToBorrowed::to_borrowed(&self.4),
        )
    }
}

impl<
    T0: ToOwned,
    T1: ToOwned,
    T2: ToOwned,
    T3: ToOwned,
    T4: ToOwned,
> ToOwned for (T0, T1, T2, T3, T4) {
    type Owned = (T0::Owned, T1::Owned, T2::Owned, T3::Owned, T4::Owned);

    open spec fn owned_as(&self, result: Self::Owned) -> bool {
        &&& self.0.owned_as(result.0)
        &&& self.1.owned_as(result.1)
        &&& self.2.owned_as(result.2)
        &&& self.3.owned_as(result.3)
        &&& self.4.owned_as(result.4)
    }

    fn to_owned(&self) -> Self::Owned {
        (
            ToOwned::to_owned(&self.0),
            ToOwned::to_owned(&self.1),
            ToOwned::to_owned(&self.2),
            ToOwned::to_owned(&self.3),
            ToOwned::to_owned(&self.4),
        )
    }
}

impl<
    T0: IntoOwned,
    T1: IntoOwned,
    T2: IntoOwned,
    T3: IntoOwned,
    T4: IntoOwned,
> IntoOwned for (T0, T1, T2, T3, T4) {
    type Owned = (T0::Owned, T1::Owned, T2::Owned, T3::Owned, T4::Owned);

    open spec fn turned_into(&self, result: Self::Owned) -> bool {
        &&& self.0.turned_into(result.0)
        &&& self.1.turned_into(result.1)
        &&& self.2.turned_into(result.2)
        &&& self.3.turned_into(result.3)
        &&& self.4.turned_into(result.4)
    }

    fn into_owned(self) -> Self::Owned {
        (
            IntoOwned::into_owned(self.0),
            IntoOwned::into_owned(self.1),
            IntoOwned::into_owned(self.2),
            IntoOwned::into_owned(self.3),
            IntoOwned::into_owned(self.4),
        )
    }
}

impl<
    'a,
    T0: ToBorrowed<'a>,
    T1: ToBorrowed<'a>,
    T2: ToBorrowed<'a>,
    T3: ToBorrowed<'a>,
    T4: ToBorrowed<'a>,
    T5: ToBorrowed<'a>,
> ToBorrowed<'a> for (T0, T1, T2, T3, T4, T5) {
    open spec fn borrowed_as(&self, result: Self) -> bool {
        &&& self.0.borrowed_as(result.0)
        &&& self.1.borrowed_as(result.1)
        &&& self.2.borrowed_as(result.2)
        &&& self.3.borrowed_as(result.3)
        &&& self.4.borrowed_as(result.4)
        &&& self.5.borrowed_as(result.5)
    }

    fn to_borrowed(&'a self) -> Self {
        (
            ToBorrowed::to_borrowed(&self.0),
            ToBorrowed::to_borrowed(&self.1),
            ToBorrowed::to_borrowed(&self.2),
            ToBorrowed::to_borrowed(&self.3),
            ToBorrowed::to_borrowed(&self.4),
            ToBorrowed::to_borrowed(&self.5),
        )
    }
}

impl<
    T0: ToOwned,
    T1: ToOwned,
    T2: ToOwned,
    T3: ToOwned,
    T4: ToOwned,
    T5: ToOwned,
> ToOwned for (T0, T1, T2, T3, T4, T5) {
    type Owned = (T0::Owned, T1::Owned, T2::Owned, T3::Owned, T4::Owned, T5::Owned);

    open spec fn owned_as(&self, result: Self::Owned) -> bool {
        &&& self.0.owned_as(result.0)
        &&& self.1.owned_as(result.1)
        &&& self.2.owned_as(result.2)
        &&& self.3.owned_as(result.3)
        &&& self.4.owned_as(result.4)
        &&& self.5.owned_as(result.5)
    }

    fn to_owned(&self) -> Self::Owned {
        (
            ToOwned::to_owned(&self.0),
            ToOwned::to_owned(&self.1),
            ToOwned::to_owned(&self.2),
            ToOwned::to_owned(&self.3),
            ToOwned::to_owned(&self.4),
            ToOwned::to_owned(&self.5),
        )
    }
}

impl<
    T0: IntoOwned,
    T1: IntoOwned,
    T2: IntoOwned,
    T3: IntoOwned,
    T4: IntoOwned,
    T5: IntoOwned,
> IntoOwned for (T0, T1, T2, T3, T4, T5) {
    type Owned = (T0::Owned, T1::Owned, T2::Owned, T3::Owned, T4::Owned, T5::Owned);

    open spec fn turned_into(&self, result: Self::Owned) -> bool {
        &&& self.0.turned_into(result.0)
        &&& self.1.turned_into(result.1)
        &&& self.2.turned_into(result.2)
        &&& self.3.turned_into(result.3)
        &&& self.4.turned_into(result.4)
        &&& self.5.turned_into(result.5)
    }

    fn into_owned(self) -> Self::Owned {
        (
            IntoOwned::into_owned(self.0),
            IntoOwned::into_owned(self.1),
            IntoOwned::into_owned(self.2),
            IntoOwned::into_owned(self.3),
            IntoOwned::into_owned(self.4),
            IntoOwned::into_owned(self.5),
        )
    }
}

impl<
    'a,
    T0: ToBorrowed<'a>,
    T1: ToBorrowed<'a>,
    T2: ToBorrowed<'a>,
    T3: ToBorrowed<'a>,
    T4: ToBorrowed<'a>,
    T5: ToBorrowed<'a>,
    T6: ToBorrowed<'a>,
> ToBorrowed<'a> for (T0, T1, T2, T3, T4, T5, T6) {
    open spec fn borrowed_as(&self, result: Self) -> bool {
        &&& self.0.borrowed_as(result.0)
        &&& self.1.borrowed_as(result.1)
        &&& self.2.borrowed_as(result.2)
        &&& self.3.borrowed_as(result.3)
        &&& self.4.borrowed_as(result.4)
        &&& self.5.borrowed_as(result.5)
        &&& self.6.borrowed_as(result.6)
    }

    fn to_borrowed(&'a self) -> Self {
        (
            ToBorrowed::to_borrowed(&self.0),
            ToBorrowed::to_borrowed(&self.1),
            ToBorrowed::to_borrowed(&self.2),
            ToBorrowed::to_borrowed(&self.3),
            ToBorrowed::to_borrowed(&self.4),
            ToBorrowed::to_borrowed(&self.5),
            ToBorrowed::to_borrowed(&self.6),
        )
    }
}

impl<
    T0: ToOwned,
    T1: ToOwned,
    T2: ToOwned,
    T3: ToOwned,
    T4: ToOwned,
    T5: ToOwned,
    T6: ToOwned,
> ToOwned for (T0, T1, T2, T3, T4, T5, T6) {
    type Owned = (T0::Owned, T1::Owned, T2::Owned, T3::Owned, T4::Owned, T5::Owned, T6::Owned);

    open spec fn owned_as(&self, result: Self::Owned) -> bool {
        &&& self.0.owned_as(result.0)
        &&& self.1.owned_as(result.1)
        &&& self.2.owned_as(result.2)
        &&& self.3.owned_as(result.3)
        &&& self.4.owned_as(result.4)
        &&& self.5.owned_as(result.5)
        &&& self.6.owned_as(result.6)
    }

    fn to_owned(&self) -> Self::Owned {
        (
            ToOwned::to_owned(&self.0),
            ToOwned::to_owned(&self.1),
            ToOwned::to_owned(&self.2),
            ToOwned::to_owned(&self.3),
            ToOwned::to_owned(&self.4),
            ToOwned::to_owned(&self.5),
            ToOwned::to_owned(&self.6),
        )
    }
}

impl<
    T0: IntoOwned,
    T1: IntoOwned,
    T2: IntoOwned,
    T3: IntoOwned,
    T4: IntoOwned,
    T5: IntoOwned,
    T6: IntoOwned,
> IntoOwned for (T0, T1, T2, T3, T4, T5, T6) {
    type Owned = (T0::Owned, T1::Owned, T2::Owned, T3::Owned, T4::Owned, T5::Owned, T6::Owned);

    open spec fn turned_into(&self, result: Self::Owned) -> bool {
        &&& self.0.turned_into(result.0)
        &&& self.1.turned_into(result.1)
        &&& self.2.turned_into(result.2)
        &&& self.3.turned_into(result.3)
        &&& self.4.turned_into(result.4)
        &&& self.5.turned_into(result.5)
        &&& self.6.turned_into(result.6)
    }

    fn into_owned(self) -> Self::Owned {
        (
            IntoOwned::into_owned(self.0),
            IntoOwned::into_owned(self.1),
            IntoOwned::into_owned(self.2),
            IntoOwned::into_owned(self.3),
            IntoOwned::into_owned(self.4),
            IntoOwned::into_owned(self.5),
            IntoOwned::into_owned(self.6),
        )
    }
}

impl<
    'a,
    T0: ToBorrowed<'a>,
    T1: ToBorrowed<'a>,
    T2: ToBorrowed<'a>,
    T3: ToBorrowed<'a>,
    T4: ToBorrowed<'a>,
    T5: ToBorrowed<'a>,
    T6: ToBorrowed<'a>,
    T7: ToBorrowed<'a>,
> ToBorrowed<'a> for (T0, T1, T2, T3, T4, T5, T6, T7) {
    open spec fn borrowed_as(&self, result: Self) -> bool {
        &&& self.0.borrowed_as(result.0)
        &&& self.1.borrowed_as(result.1)
        &&& self.2.borrowed_as(result.2)
        &&& self.3.borrowed_as(result.3)
        &&& self.4.borrowed_as(result.4)
        &&& self.5.borrowed_as(result.5)
        &&& self.6.borrowed_as(result.6)
        &&& self.7.borrowed_as(result.7)
    }

    fn to_borrowed(&'a self) -> Self {
        (
            ToBorrowed::to_borrowed(&self.0),
            ToBorrowed::to_borrowed(&self.1),
            ToBorrowed::to_borrowed(&self.2),
            ToBorrowed::to_borrowed(&self.3),
            ToBorrowed::to_borrowed(&self.4),
            ToBorrowed::to_borrowed(&self.5),
            ToBorrowed::to_borrowed(&self.6),
            ToBorrowed::to_borrowed(&self.7),
        )
    }
}

impl<
    T0: ToOwned,
    T1: ToOwned,
    T2: ToOwned,
    T3: ToOwned,
    T4: ToOwned,
    T5: ToOwned,
    T6: ToOwned,
    T7: ToOwned,
> ToOwned for (T0, T1, T2, T3, T4, T5, T6, T7) {
    type Owned = (
        T0::Owned,
        T1::Owned,
        T2::Owned,
        T3::Owned,
        T4::Owned,
        T5::Owned,
        T6::Owned,
        T7::Owned,
    );

    open spec fn owned_as(&self, result: Self::Owned) -> bool {
        &&& self.0.owned_as(result.0)
        &&& self.1.owned_as(result.1)
        &&& self.2.owned_as(result.2)
        &&& self.3.owned_as(result.3)
        &&& self.4.owned_as(result.4)
        &&& self.5.owned_as(result.5)
        &&& self.6.owned_as(result.6)
        &&& self.7.owned_as(result.7)
    }

    fn to_owned(&self) -> Self::Owned {
        (
            ToOwned::to_owned(&self.0),
            ToOwned::to_owned(&self.1),
            ToOwned::to_owned(&self.2),
            ToOwned::to_owned(&self.3),
            ToOwned::to_owned(&self.4),
            ToOwned::to_owned(&self.5),
            ToOwned::to_owned(&self.6),
            ToOwned::to_owned(&self.7),
        )
    }
}

impl<
    T0: IntoOwned,
    T1: IntoOwned,
    T2: IntoOwned,
    T3: IntoOwned,
    T4: IntoOwned,
    T5: IntoOwned,
    T6: IntoOwned,
    T7: IntoOwned,
> IntoOwned for (T0, T1, T2, T3, T4, T5, T6, T7) {
    type Owned = (
        T0::Owned,
        T1::Owned,
        T2::Owned,
        T3::Owned,
        T4::Owned,
        T5::Owned,
        T6::Owned,
        T7::Owned,
    );

    open spec fn turned_into(&self, result: Self::Owned) -> bool {
        &&& self.0.turned_into(result.0)
        &&& self.1.turned_into(result.1)
        &&& self.2.turned_into(result.2)
        &&& self.3.turned_into(result.3)
        &&& self.4.turned_into(result.4)
        &&& self.5.turned_into(result.5)
        &&& self.6.turned_into(result.6)
        &&& self.7.turned_into(result.7)
    }

    fn into_owned(self) -> Self::Owned {
        (
            IntoOwned::into_owned(self.0),
            IntoOwned::into_owned(self.1),
            IntoOwned::into_owned(self.2),
            IntoOwned::into_owned(self.3),
            IntoOwned::into_owned(self.4),
            IntoOwned::into_owned(self.5),
            IntoOwned::into_owned(self.6),
            IntoOwned::into_owned(self.7),
        )
    }
}

impl<
    'a,
    T0: ToBorrowed<'a>,
    T1: ToBorrowed<'a>,
    T2: ToBorrowed<'a>,
    T3: ToBorrowed<'a>,
    T4: ToBorrowed<'a>,
    T5: ToBorrowed<'a>,
    T6: ToBorrowed<'a>,
    T7: ToBorrowed<'a>,
    T8: ToBorrowed<'a>,
> ToBorrowed<'a> for (T0, T1, T2, T3, T4, T5, T6, T7, T8) {
    open spec fn borrowed_as(&self, result: Self) -> bool {
        &&& self.0.borrowed_as(result.0)
        &&& self.1.borrowed_as(result.1)
        &&& self.2.borrowed_as(result.2)
        &&& self.3.borrowed_as(result.3)
        &&& self.4.borrowed_as(result.4)
        &&& self.5.borrowed_as(result.5)
        &&& self.6.borrowed_as(result.6)
        &&& self.7.borrowed_as(result.7)
        &&& self.8.borrowed_as(result.8)
    }

    fn to_borrowed(&'a self) -> Self {
        (
            ToBorrowed::to_borrowed(&self.0),
            ToBorrowed::to_borrowed(&self.1),
            ToBorrowed::to_borrowed(&self.2),
            ToBorrowed::to_borrowed(&self.3),
            ToBorrowed::to_borrowed(&self.4),
            ToBorrowed::to_borrowed(&self.5),
            ToBorrowed::to_borrowed(&self.6),
            ToBorrowed::to_borrowed(&self.7),
            ToBorrowed::to_borrowed(&self.8),
        )
    }
}

impl<
    T0: ToOwned,
    T1: ToOwned,
    T2: ToOwned,
    T3: ToOwned,
    T4: ToOwned,
    T5: ToOwned,
    T6: ToOwned,
    T7: ToOwned,
    T8: ToOwned,
> ToOwned for (T0, T1, T2, T3, T4, T5, T6, T7, T8) {
    type Owned = (
        T0::Owned,
        T1::Owned,
        T2::Owned,
        T3::Owned,
        T4::Owned,
        T5::Owned,
        T6::Owned,
        T7::Owned,
        T8::Owned,
    );

    open spec fn owned_as(&self, result: Self::Owned) -> bool {
        &&& self.0.owned_as(result.0)
        &&& self.1.owned_as(result.1)
        &&& self.2.owned_as(result.2)
        &&& self.3.owned_as(result.3)
        &&& self.4.owned_as(result.4)
        &&& self.5.owned_as(result.5)
        &&& self.6.owned_as(result.6)
        &&& self.7.owned_as(result.7)
        &&& self.8.owned_as(result.8)
    }

    fn to_owned(&self) -> Self::Owned {
        (
            ToOwned::to_owned(&self.0),
            ToOwned::to_owned(&self.1),
            ToOwned::to_owned(&self.2),
            ToOwned::to_owned(&self.3),
            ToOwned::to_owned(&self.4),
            ToOwned::to_owned(&self.5),
            ToOwned::to_owned(&self.6),
            ToOwned::to_owned(&self.7),
            ToOwned::to_owned(&self.8),
        )
    }
}

impl<
    T0: IntoOwned,
    T1: IntoOwned,
    T2: IntoOwned,
    T3: IntoOwned,
    T4: IntoOwned,
    T5: IntoOwned,
    T6: IntoOwned,
    T7: IntoOwned,
    T8: IntoOwned,
> IntoOwned for (T0, T1, T2, T3, T4, T5, T6, T7, T8) {
    type Owned = (
        T0::Owned,
        T1::Owned,
        T2::Owned,
        T3::Owned,
        T4::Owned,
        T5::Owned,
        T6::Owned,
        T7::Owned,
        T8::Owned,
    );

    open spec fn turned_into(&self, result: Self::Owned) -> bool {
        &&& self.0.turned_into(result.0)
        &&& self.1.turned_into(result.1)
        &&& self.2.turned_into(result.2)
        &&& self.3.turned_into(result.3)
        &&& self.4.turned_into(result.4)
        &&& self.5.turned_into(result.5)
        &&& self.6.turned_into(result.6)
        &&& self.7.turned_into(result.7)
        &&& self.8.turned_into(result.8)
    }

    fn into_owned(self) -> Self::Owned {
        (
            IntoOwned::into_owned(self.0),
            IntoOwned::into_owned(self.1),
            IntoOwned::into_owned(self.2),
            IntoOwned::into_owned(self.3),
            IntoOwned::into_owned(self.4),
            IntoOwned::into_owned(self.5),
            IntoOwned::into_owned(self.6),
            IntoOwned::into_owned(self.7),
            IntoOwned::into_owned(self.8),
        )
    }
}

impl<
    'a,
    T0: ToBorrowed<'a>,
    T1: ToBorrowed<'a>,
    T2: ToBorrowed<'a>,
    T3: ToBorrowed<'a>,
    T4: ToBorrowed<'a>,
    T5: ToBorrowed<'a>,
    T6: ToBorrowed<'a>,
    T7: ToBorrowed<'a>,
    T8: ToBorrowed<'a>,
    T9: ToBorrowed<'a>,
> ToBorrowed<'a> for (T0, T1, T2, T3, T4, T5, T6, T7, T8, T9) {
    open spec fn borrowed_as(&self, result: Self) -> bool {
        &&& self.0.borrowed_as(result.0)
        &&& self.1.borrowed_as(result.1)
        &&& self.2.borrowed_as(result.2)
        &&& self.3.borrowed_as(result.3)
        &&& self.4.borrowed_as(result.4)
        &&& self.5.borrowed_as(result.5)
        &&& self.6.borrowed_as(result.6)
        &&& self.7.borrowed_as(result.7)
        &&& self.8.borrowed_as(result.8)
        &&& self.9.borrowed_as(result.9)
    }

    fn to_borrowed(&'a self) -> Self {
        (
            ToBorrowed::to_borrowed(&self.0),
            ToBorrowed::to_borrowed(&self.1),
            ToBorrowed::to_borrowed(&self.2),
            ToBorrowed::to_borrowed(&self.3),
            ToBorrowed::to_borrowed(&self.4),
            ToBorrowed::to_borrowed(&self.5),
            ToBorrowed::to_borrowed(&self.6),
            ToBorrowed::to_borrowed(&self.7),
            ToBorrowed::to_borrowed(&self.8),
            ToBorrowed::to_borrowed(&self.9),
        )
    }
}

impl<
    T0: ToOwned,
    T1: ToOwned,
    T2: ToOwned,
    T3: ToOwned,
    T4: ToOwned,
    T5: ToOwned,
    T6: ToOwned,
    T7: ToOwned,
    T8: ToOwned,
    T9: ToOwned,
> ToOwned for (T0, T1, T2, T3, T4, T5, T6, T7, T8, T9) {
    type Owned = (
        T0::Owned,
        T1::Owned,
        T2::Owned,
        T3::Owned,
        T4::Owned,
        T5::Owned,
        T6::Owned,
        T7::Owned,
        T8::Owned,
        T9::Owned,
    );

    open spec fn owned_as(&self, result: Self::Owned) -> bool {
        &&& self.0.owned_as(result.0)
        &&& self.1.owned_as(result.1)
        &&& self.2.owned_as(result.2)
        &&& self.3.owned_as(result.3)
        &&& self.4.owned_as(result.4)
        &&& self.5.owned_as(result.5)
        &&& self.6.owned_as(result.6)
        &&& self.7.owned_as(result.7)
        &&& self.8.owned_as(result.8)
        &&& self.9.owned_as(result.9)
    }

    fn to_owned(&self) -> Self::Owned {
        (
            ToOwned::to_owned(&self.0),
            ToOwned::to_owned(&self.1),
            ToOwned::to_owned(&self.2),
            ToOwned::to_owned(&self.3),
            ToOwned::to_owned(&self.4),
            ToOwned::to_owned(&self.5),
            ToOwned::to_owned(&self.6),
            ToOwned::to_owned(&self.7),
            ToOwned::to_owned(&self.8),
            ToOwned::to_owned(&self.9),
        )
    }
}

impl<
    T0: IntoOwned,
    T1: IntoOwned,
    T2: IntoOwned,
    T3: IntoOwned,
    T4: IntoOwned,
    T5: IntoOwned,
    T6: IntoOwned,
    T7: IntoOwned,
    T8: IntoOwned,
    T9: IntoOwned,
> IntoOwned for (T0, T1, T2, T3, T4, T5, T6, T7, T8, T9) {
    type Owned = (
        T0::Owned,
        T1::Owned,
        T2::Owned,
        T3::Owned,
        T4::Owned,
        T5::Owned,
        T6::Owned,
        T7::Owned,
        T8::Owned,
        T9::Owned,
    );

    open spec fn turned_into(&self, result: Self::Owned) -> bool {
        &&& self.0.turned_into(result.0)
        &&& self.1.turned_into(result.1)
        &&& self.2.turned_into(result.2)
        &&& self.3.turned_into(result.3)
        &&& self.4.turned_into(result.4)
        &&& self.5.turned_into(result.5)
        &&& self.6.turned_into(result.6)
        &&& self.7.turned_into(result.7)
        &&& self.8.turned_into(result.8)
        &&& self.9.turned_into(result.9)
    }

    fn into_owned(self) -> Self::Owned {
        (
            IntoOwned::into_owned(self.0),
            IntoOwned::into_owned(self.1),
            IntoOwned::into_owned(self.2),
            IntoOwned::into_owned(self.3),
            IntoOwned::into_owned(self.4),
            IntoOwned::into_owned(self.5),
            IntoOwned::into_owned(self.6),
            IntoOwned::into_owned(self.7),
            IntoOwned::into_owned(self.8),
            IntoOwned::into_owned(self.9),
        )
    }
}

impl<
    'a,
    T0: ToBorrowed<'a>,
    T1: ToBorrowed<'a>,
    T2: ToBorrowed<'a>,
    T3: ToBorrowed<'a>,
    T4: ToBorrowed<'a>,
    T5: ToBorrowed<'a>,
    T6: ToBorrowed<'a>,
    T7: ToBorrowed<'a>,
    T8: ToBorrowed<'a>,
    T9: ToBorrowed<'a>,
    T10: ToBorrowed<'a>,
> ToBorrowed<'a> for (T0, T1, T2, T3, T4, T5, T6, T7, T8, T9, T10) {
    open spec fn borrowed_as(&self, result: Self) -> bool {
        &&& self.0.borrowed_as(result.0)
        &&& self.1.borrowed_as(result.1)
        &&& self.2.borrowed_as(result.2)
        &&& self.3.borrowed_as(result.3)
        &&& self.4.borrowed_as(result.4)
        &&& self.5.borrowed_as(result.5)
        &&& self.6.borrowed_as(result.6)
        &&& self.7.borrowed_as(result.7)
        &&& self.8.borrowed_as(result.8)
        &&& self.9.borrowed_as(result.9)
        &&& self.10.borrowed_as(result.10)
    }

    fn to_borrowed(&'a self) -> Self {
        (
            ToBorrowed::to_borrowed(&self.0),
            ToBorrowed::to_borrowed(&self.1),
            ToBorrowed::to_borrowed(&self.2),
            ToBorrowed::to_borrowed(&self.3),
            ToBorrowed::to_borrowed(&self.4),
            ToBorrowed::to_borrowed(&self.5),
            ToBorrowed::to_borrowed(&self.6),
            ToBorrowed::to_borrowed(&self.7),
            ToBorrowed::to_borrowed(&self.8),
            ToBorrowed::to_borrowed(&self.9),
            ToBorrowed::to_borrowed(&self.10),
        )
    }
}

impl<
    T0: ToOwned,
    T1: ToOwned,
    T2: ToOwned,
    T3: ToOwned,
    T4: ToOwned,
    T5: ToOwned,
    T6: ToOwned,
    T7: ToOwned,
    T8: ToOwned,
    T9: ToOwned,
    T10: ToOwned,
> ToOwned for (T0, T1, T2, T3, T4, T5, T6, T7, T8, T9, T10) {
    type Owned = (
        T0::Owned,
        T1::Owned,
        T2::Owned,
        T3::Owned,
        T4::Owned,
        T5::Owned,
        T6::Owned,
        T7::Owned,
        T8::Owned,
        T9::Owned,
        T10::Owned,
    );

    open spec fn owned_as(&self, result: Self::Owned) -> bool {
        &&& self.0.owned_as(result.0)
        &&& self.1.owned_as(result.1)
        &&& self.2.owned_as(result.2)
        &&& self.3.owned_as(result.3)
        &&& self.4.owned_as(result.4)
        &&& self.5.owned_as(result.5)
        &&& self.6.owned_as(result.6)
        &&& self.7.owned_as(result.7)
        &&& self.8.owned_as(result.8)
        &&& self.9.owned_as(result.9)
        &&& self.10.owned_as(result.10)
    }

    fn to_owned(&self) -> Self::Owned {
        (
            ToOwned::to_owned(&self.0),
            ToOwned::to_owned(&self.1),
            ToOwned::to_owned(&self.2),
            ToOwned::to_owned(&self.3),
            ToOwned::to_owned(&self.4),
            ToOwned::to_owned(&self.5),
            ToOwned::to_owned(&self.6),
            ToOwned::to_owned(&self.7),
            ToOwned::to_owned(&self.8),
            ToOwned::to_owned(&self.9),
            ToOwned::to_owned(&self.10),
        )
    }
}

impl<
    T0: IntoOwned,
    T1: IntoOwned,
    T2: IntoOwned,
    T3: IntoOwned,
    T4: IntoOwned,
    T5: IntoOwned,
    T6: IntoOwned,
    T7: IntoOwned,
    T8: IntoOwned,
    T9: IntoOwned,
    T10: IntoOwned,
> IntoOwned for (T0, T1, T2, T3, T4, T5, T6, T7, T8, T9, T10) {
    type Owned = (
        T0::Owned,
        T1::Owned,
        T2::Owned,
        T3::Owned,
        T4::Owned,
        T5::Owned,
        T6::Owned,
        T7::Owned,
        T8::Owned,
        T9::Owned,
        T10::Owned,
    );

    open spec fn turned_into(&self, result: Self::Owned) -> bool {
        &&& self.0.turned_into(result.0)
        &&& self.1.turned_into(result.1)
        &&& self.2.turned_into(result.2)
        &&& self.3.turned_into(result.3)
        &&& self.4.turned_into(result.4)
        &&& self.5.turned_into(result.5)
        &&& self.6.turned_into(result.6)
        &&& self.7.turned_into(result.7)
        &&& self.8.turned_into(result.8)
        &&& self.9.turned_into(result.9)
        &&& self.10.turned_into(result.10)
    }

    fn into_owned(self) -> Self::Owned {
        (
            IntoOwned::into_owned(self.0),
            IntoOwned::into_owned(self.1),
            IntoOwned::into_owned(self.2),
            IntoOwned::into_owned(self.3),
            IntoOwned::into_owned(self.4),
            IntoOwned::into_owned(self.5),
            IntoOwned::into_owned(self.6),
            IntoOwned::into_owned(self.7),
            IntoOwned::into_owned(self.8),
            IntoOwned::into_owned(self.9),
            IntoOwned::into_owned(self.10),
        )
    }
}

impl<
    'a,
    T0: ToBorrowed<'a>,
    T1: ToBorrowed<'a>,
    T2: ToBorrowed<'a>,
    T3: ToBorrowed<'a>,
    T4: ToBorrowed<'a>,
    T5: ToBorrowed<'a>,
    T6: ToBorrowed<'a>,
    T7: ToBorrowed<'a>,
    T8: ToBorrowed<'a>,
    T9: ToBorrowed<'a>,
    T10: ToBorrowed<'a>,
    T11: ToBorrowed<'a>,
> ToBorrowed<'a> for (T0, T1, T2, T3, T4, T5, T6, T7, T8, T9, T10, T11) {
    open spec fn borrowed_as(&self, result: Self) -> bool {
        &&& self.0.borrowed_as(result.0)
        &&& self.1.borrowed_as(result.1)
        &&& self.2.borrowed_as(result.2)
        &&& self.3.borrowed_as(result.3)
        &&& self.4.borrowed_as(result.4)
        &&& self.5.borrowed_as(result.5)
        &&& self.6.borrowed_as(result.6)
        &&& self.7.borrowed_as(result.7)
        &&& self.8.borrowed_as(result.8)
        &&& self.9.borrowed_as(result.9)
        &&& self.10.borrowed_as(result.10)
        &&& self.11.borrowed_as(result.11)
    }

    fn to_borrowed(&'a self) -> Self {
        (
            ToBorrowed::to_borrowed(&self.0),
            ToBorrowed::to_borrowed(&self.1),
            ToBorrowed::to_borrowed(&self.2),
            ToBorrowed::to_borrowed(&self.3),
            ToBorrowed::to_borrowed(&self.4),
            ToBorrowed::to_borrowed(&self.5),
            ToBorrowed::to_borrowed(&self.6),
            ToBorrowed::to_borrowed(&self.7),
            ToBorrowed::to_borrowed(&self.8),
            ToBorrowed::to_borrowed(&self.9),
            ToBorrowed::to_borrowed(&self.10),
            ToBorrowed::to_borrowed(&self.11),
        )
    }
}

impl<
    T0: ToOwned,
    T1: ToOwned,
    T2: ToOwned,
    T3: ToOwned,
    T4: ToOwned,
    T5: ToOwned,
    T6: ToOwned,
    T7: ToOwned,
    T8: ToOwned,
    T9: ToOwned,
    T10: ToOwned,
    T11: ToOwned,
> ToOwned for (T0, T1, T2, T3, T4, T5, T6, T7, T8, T9, T10, T11) {
    type Owned = (
        T0::Owned,
        T1::Owned,
        T2::Owned,
        T3::Owned,
        T4::Owned,
        T5::Owned,
        T6::Owned,
        T7::Owned,
        T8::Owned,
        T9::Owned,
        T10::Owned,
        T11::Owned,
    );

    open spec fn owned_as(&self, result: Self::Owned) -> bool {
        &&& self.0.owned_as(result.0)
        &&& self.1.owned_as(result.1)
        &&& self.2.owned_as(result.2)
        &&& self.3.owned_as(result.3)
        &&& self.4.owned_as(result.4)
        &&& self.5.owned_as(result.5)
        &&& self.6.owned_as(result.6)
        &&& self.7.owned_as(result.7)
        &&& self.8.owned_as(result.8)
        &&& self.9.owned_as(result.9)
        &&& self.10.owned_as(result.10)
        &&& self.11.owned_as(result.11)
    }

    fn to_owned(&self) -> Self::Owned {
        (
            ToOwned::to_owned(&self.0),
            ToOwned::to_owned(&self.1),
            ToOwned::to_owned(&self.2),
            ToOwned::to_owned(&self.3),
            ToOwned::to_owned(&self.4),
            ToOwned::to_owned(&self.5),
            ToOwned::to_owned(&self.6),
            ToOwned::to_owned(&self.7),
            ToOwned::to_owned(&self.8),
            ToOwned::to_owned(&self.9),
            ToOwned::to_owned(&self.10),
            ToOwned::to_owned(&self.11),
        )
    }
}

impl<
    T0: IntoOwned,
    T1: IntoOwned,
    T2: IntoOwned,
    T3: IntoOwned,
    T4: IntoOwned,
    T5: IntoOwned,
    T6: IntoOwned,
    T7: IntoOwned,
    T8: IntoOwned,
    T9: IntoOwned,
    T10: IntoOwned,
    T11: IntoOwned,
> IntoOwned for (T0, T1, T2, T3, T4, T5, T6, T7, T8, T9, T10, T11) {
    type Owned = (
        T0::Owned,
        T1::Owned,
        T2::Owned,
        T3::Owned,
        T4::Owned,
        T5::Owned,
        T6::Owned,
        T7::Owned,
        T8::Owned,
        T9::Owned,
        T10::Owned,
        T11::Owned,
    );

    open spec fn turned_into(&self, result: Self::Owned) -> bool {
        &&& self.0.turned_into(result.0)
        &&& self.1.turned_into(result.1)
        &&& self.2.turned_into(result.2)
        &&& self.3.turned_into(result.3)
        &&& self.4.turned_into(result.4)
        &&& self.5.turned_into(result.5)
        &&& self.6.turned_into(result.6)
        &&& self.7.turned_into(result.7)
        &&& self.8.turned_into(result.8)
        &&& self.9.turned_into(result.9)
        &&& self.10.turned_into(result.10)
        &&& self.11.turned_into(result.11)
    }

    fn into_owned(self) -> Self::Owned {
        (
            IntoOwned::into_owned(self.0),
            IntoOwned::into_owned(self.1),
            IntoOwned::into_owned(self.2),
            IntoOwned::into_owned(self.3),
            IntoOwned::into_owned(self.4),
            IntoOwned::into_owned(self.5),
            IntoOwned::into_owned(self.6),
            IntoOwned::into_owned(self.7),
            IntoOwned::into_owned(self.8),
            IntoOwned::into_owned(self.9),
            IntoOwned::into_owned(self.10),
            IntoOwned::into_owned(self.11),
        )
    }
}

impl<
    'a,
    T0: ToBorrowed<'a>,
    T1: ToBorrowed<'a>,
    T2: ToBorrowed<'a>,
    T3: ToBorrowed<'a>,
    T4: ToBorrowed<'a>,
    T5: ToBorrowed<'a>,
    T6: ToBorrowed<'a>,
    T7: ToBorrowed<'a>,
    T8: ToBorrowed<'a>,
    T9: ToBorrowed<'a>,
    T10: ToBorrowed<'a>,
    T11: ToBorrowed<'a>,
    T12: ToBorrowed<'a>,
> ToBorrowed<'a> for (T0, T1, T2, T3, T4, T5, T6, T7, T8, T9, T10, T11, T12) {
    open spec fn borrowed_as(&self, result: Self) -> bool {
        &&& self.0.borrowed_as(result.0)
        &&& self.1.borrowed_as(result.1)
        &&& self.2.borrowed_as(result.2)
        &&& self.3.borrowed_as(result.3)
        &&& self.4.borrowed_as(result.4)
        &&& self.5.borrowed_as(result.5)
        &&& self.6.borrowed_as(result.6)
        &&& self.7.borrowed_as(result.7)
        &&& self.8.borrowed_as(result.8)
        &&& self.9.borrowed_as(result.9)
        &&& self.10.borrowed_as(result.10)
        &&& self.11.borrowed_as(result.11)
        &&& self.12.borrowed_as(result.12)
    }

    fn to_borrowed(&'a self) -> Self {
        (
            ToBorrowed::to_borrowed(&self.0),
            ToBorrowed::to_borrowed(&self.1),
            ToBorrowed::to_borrowed(&self.2),
            ToBorrowed::to_borrowed(&self.3),
            ToBorrowed::to_borrowed(&self.4),
            ToBorrowed::to_borrowed(&self.5),
            ToBorrowed::to_borrowed(&self.6),
            ToBorrowed::to_borrowed(&self.7),
            ToBorrowed::to_borrowed(&self.8),
            ToBorrowed::to_borrowed(&self.9),
            ToBorrowed::to_borrowed(&self.10),
            ToBorrowed::to_borrowed(&self.11),
            ToBorrowed::to_borrowed(&self.12),
        )
    }
}

impl<
    T0: ToOwned,
    T1: ToOwned,
    T2: ToOwned,
    T3: ToOwned,
    T4: ToOwned,
    T5: ToOwned,
    T6: ToOwned,
    T7: ToOwned,
    T8: ToOwned,
    T9: ToOwned,
    T10: ToOwned,
    T11: ToOwned,
    T12: ToOwned,
> ToOwned for (T0, T1, T2, T3, T4, T5, T6, T7, T8, T9, T10, T11, T12) {
    type Owned = (
        T0::Owned,
        T1::Owned,
        T2::Owned,
        T3::Owned,
        T4::Owned,
        T5::Owned,
        T6::Owned,
        T7::Owned,
        T8::Owned,
        T9::Owned,
        T10::Owned,
        T11::Owned,
        T12::Owned,
    );

    open spec fn owned_as(&self, result: Self::Owned) -> bool {
        &&& self.0.owned_as(result.0)
        &&& self.1.owned_as(result.1)
        &&& self.2.owned_as(result.2)
        &&& self.3.owned_as(result.3)
        &&& self.4.owned_as(result.4)
        &&& self.5.owned_as(result.5)
        &&& self.6.owned_as(result.6)
        &&& self.7.owned_as(result.7)
        &&& self.8.owned_as(result.8)
        &&& self.9.owned_as(result.9)
        &&& self.10.owned_as(result.10)
        &&& self.11.owned_as(result.11)
        &&& self.12.owned_as(result.12)
    }

    fn to_owned(&self) -> Self::Owned {
        (
            ToOwned::to_owned(&self.0),
            ToOwned::to_owned(&self.1),
            ToOwned::to_owned(&self.2),
            ToOwned::to_owned(&self.3),
            ToOwned::to_owned(&self.4),
            ToOwned::to_owned(&self.5),
            ToOwned::to_owned(&self.6),
            ToOwned::to_owned(&self.7),
            ToOwned::to_owned(&self.8),
            ToOwned::to_owned(&self.9),
            ToOwned::to_owned(&self.10),
            ToOwned::to_owned(&self.11),
            ToOwned::to_owned(&self.12),
        )
    }
}

impl<
    T0: IntoOwned,
    T1: IntoOwned,
    T2: IntoOwned,
    T3: IntoOwned,
    T4: IntoOwned,
    T5: IntoOwned,
    T6: IntoOwned,
    T7: IntoOwned,
    T8: IntoOwned,
    T9: IntoOwned,
    T10: IntoOwned,
    T11: IntoOwned,
    T12: IntoOwned,
> IntoOwned for (T0, T1, T2, T3, T4, T5, T6, T7, T8, T9, T10, T11, T12) {
    type Owned = (
        T0::Owned,
        T1::Owned,
        T2::Owned,
        T3::Owned,
        T4::Owned,
        T5::Owned,
        T6::Owned,
        T7::Owned,
        T8::Owned,
        T9::Owned,
        T10::Owned,
        T11::Owned,
        T12::Owned,
    );

    open spec fn turned_into(&self, result: Self::Owned) -> bool {
        &&& self.0.turned_into(result.0)
        &&& self.1.turned_into(result.1)
        &&& self.2.turned_into(result.2)
        &&& self.3.turned_into(result.3)
        &&& self.4.turned_into(result.4)
        &&& self.5.turned_into(result.5)
        &&& self.6.turned_into(result.6)
        &&& self.7.turned_into(result.7)
        &&& self.8.turned_into(result.8)
        &&& self.9.turned_into(result.9)
        &&& self.10.turned_into(result.10)
        &&& self.11.turned_into(result.11)
        &&& self.12.turned_into(result.12)
    }

    fn into_owned(self) -> Self::Owned {
        (
            IntoOwned::into_owned(self.0),
            IntoOwned::into_owned(self.1),
            IntoOwned::into_owned(self.2),
            IntoOwned::into_owned(self.3),
            IntoOwned::into_owned(self.4),
            IntoOwned::into_owned(self.5),
            IntoOwned::into_owned(self.6),
            IntoOwned::into_owned(self.7),
            IntoOwned::into_owned(self.8),
            IntoOwned::into_owned(self.9),
            IntoOwned::into_owned(self.10),
            IntoOwned::into_owned(self.11),
            IntoOwned::into_owned(self.12),
        )
    }
}

impl<
    'a,
    T0: ToBorrowed<'a>,
    T1: ToBorrowed<'a>,
    T2: ToBorrowed<'a>,
    T3: ToBorrowed<'a>,
    T4: ToBorrowed<'a>,
    T5: ToBorrowed<'a>,
    T6: ToBorrowed<'a>,
    T7: ToBorrowed<'a>,
    T8: ToBorrowed<'a>,
    T9: ToBorrowed<'a>,
    T10: ToBorrowed<'a>,
    T11: ToBorrowed<'a>,
    T12: ToBorrowed<'a>,
    T13: ToBorrowed<'a>,
> ToBorrowed<'a> for (T0, T1, T2, T3, T4, T5, T6, T7, T8, T9, T10, T11, T12, T13) {
    open spec fn borrowed_as(&self, result: Self) -> bool {
        &&& self.0.borrowed_as(result.0)
        &&& self.1.borrowed_as(result.1)
        &&& self.2.borrowed_as(result.2)
        &&& self.3.borrowed_as(result.3)
        &&& self.4.borrowed_as(result.4)
        &&& self.5.borrowed_as(result.5)
        &&& self.6.borrowed_as(result.6)
        &&& self.7.borrowed_as(result.7)
        &&& self.8.borrowed_as(result.8)
        &&& self.9.borrowed_as(result.9)
        &&& self.10.borrowed_as(result.10)
        &&& self.11.borrowed_as(result.11)
        &&& self.12.borrowed_as(result.12)
        &&& self.13.borrowed_as(result.13)
    }

    fn to_borrowed(&'a self) -> Self {
        (
            ToBorrowed::to_borrowed(&self.0),
            ToBorrowed::to_borrowed(&self.1),
            ToBorrowed::to_borrowed(&self.2),
            ToBorrowed::to_borrowed(&self.3),
            ToBorrowed::to_borrowed(&self.4),
            ToBorrowed::to_borrowed(&self.5),
            ToBorrowed::to_borrowed(&self.6),
            ToBorrowed::to_borrowed(&self.7),
            ToBorrowed::to_borrowed(&self.8),
            ToBorrowed::to_borrowed(&self.9),
            ToBorrowed::to_borrowed(&self.10),
            ToBorrowed::to_borrowed(&self.11),
            ToBorrowed::to_borrowed(&self.12),
            ToBorrowed::to_borrowed(&self.13),
        )
    }
}

impl<
    T0: ToOwned,
    T1: ToOwned,
    T2: ToOwned,
    T3: ToOwned,
    T4: ToOwned,
    T5: ToOwned,
    T6: ToOwned,
    T7: ToOwned,
    T8: ToOwned,
    T9: ToOwned,
    T10: ToOwned,
    T11: ToOwned,
    T12: ToOwned,
    T13: ToOwned,
> ToOwned for (T0, T1, T2, T3, T4, T5, T6, T7, T8, T9, T10, T11, T12, T13) {
    type Owned = (
        T0::Owned,
        T1::Owned,
        T2::Owned,
        T3::Owned,
        T4::Owned,
        T5::Owned,
        T6::Owned,
        T7::Owned,
        T8::Owned,
        T9::Owned,
        T10::Owned,
        T11::Owned,
        T12::Owned,
        T13::Owned,
    );

    open spec fn owned_as(&self, result: Self::Owned) -> bool {
        &&& self.0.owned_as(result.0)
        &&& self.1.owned_as(result.1)
        &&& self.2.owned_as(result.2)
        &&& self.3.owned_as(result.3)
        &&& self.4.owned_as(result.4)
        &&& self.5.owned_as(result.5)
        &&& self.6.owned_as(result.6)
        &&& self.7.owned_as(result.7)
        &&& self.8.owned_as(result.8)
        &&& self.9.owned_as(result.9)
        &&& self.10.owned_as(result.10)
        &&& self.11.owned_as(result.11)
        &&& self.12.owned_as(result.12)
        &&& self.13.owned_as(result.13)
    }

    fn to_owned(&self) -> Self::Owned {
        (
            ToOwned::to_owned(&self.0),
            ToOwned::to_owned(&self.1),
            ToOwned::to_owned(&self.2),
            ToOwned::to_owned(&self.3),
            ToOwned::to_owned(&self.4),
            ToOwned::to_owned(&self.5),
            ToOwned::to_owned(&self.6),
            ToOwned::to_owned(&self.7),
            ToOwned::to_owned(&self.8),
            ToOwned::to_owned(&self.9),
            ToOwned::to_owned(&self.10),
            ToOwned::to_owned(&self.11),
            ToOwned::to_owned(&self.12),
            ToOwned::to_owned(&self.13),
        )
    }
}

impl<
    T0: IntoOwned,
    T1: IntoOwned,
    T2: IntoOwned,
    T3: IntoOwned,
    T4: IntoOwned,
    T5: IntoOwned,
    T6: IntoOwned,
    T7: IntoOwned,
    T8: IntoOwned,
    T9: IntoOwned,
    T10: IntoOwned,
    T11: IntoOwned,
    T12: IntoOwned,
    T13: IntoOwned,
> IntoOwned for (T0, T1, T2, T3, T4, T5, T6, T7, T8, T9, T10, T11, T12, T13) {
    type Owned = (
        T0::Owned,
        T1::Owned,
        T2::Owned,
        T3::Owned,
        T4::Owned,
        T5::Owned,
        T6::Owned,
        T7::Owned,
        T8::Owned,
        T9::Owned,
        T10::Owned,
        T11::Owned,
        T12::Owned,
        T13::Owned,
    );

    open spec fn turned_into(&self, result: Self::Owned) -> bool {
        &&& self.0.turned_into(result.0)
        &&& self.1.turned_into(result.1)
        &&& self.2.turned_into(result.2)
        &&& self.3.turned_into(result.3)
        &&& self.4.turned_into(result.4)
        &&& self.5.turned_into(result.5)
        &&& self.6.turned_into(result.6)
        &&& self.7.turned_into(result.7)
        &&& self.8.turned_into(result.8)
        &&& self.9.turned_into(result.9)
        &&& self.10.turned_into(result.10)
        &&& self.11.turned_into(result.11)
        &&& self.12.turned_into(result.12)
        &&& self.13.turned_into(result.13)
    }

    fn into_owned(self) -> Self::Owned {
        (
            IntoOwned::into_owned(self.0),
            IntoOwned::into_owned(self.1),
            IntoOwned::into_owned(self.2),
            IntoOwned::into_owned(self.3),
            IntoOwned::into_owned(self.4),
            IntoOwned::into_owned(self.5),
            IntoOwned::into_owned(self.6),
            IntoOwned::into_owned(self.7),
            IntoOwned::into_owned(self.8),
            IntoOwned::into_owned(self.9),
            IntoOwned::into_owned(self.10),
            IntoOwned::into_owned(self.11),
            IntoOwned::into_owned(self.12),
            IntoOwned::into_owned(self.13),
        )
    }
}

impl<
    'a,
    T0: ToBorrowed<'a>,
    T1: ToBorrowed<'a>,
    T2: ToBorrowed<'a>,
    T3: ToBorrowed<'a>,
    T4: ToBorrowed<'a>,
    T5: ToBorrowed<'a>,
    T6: ToBorrowed<'a>,
    T7: ToBorrowed<'a>,
    T8: ToBorrowed<'a>,
    T9: ToBorrowed<'a>,
    T10: ToBorrowed<'a>,
    T11: ToBorrowed<'a>,
    T12: ToBorrowed<'a>,
    T13: ToBorrowed<'a>,
    T14: ToBorrowed<'a>,
> ToBorrowed<'a> for (T0, T1, T2, T3, T4, T5, T6, T7, T8, T9, T10, T11, T12, T13, T14) {
    open spec fn borrowed_as(&self, result: Self) -> bool {
        &&& self.0.borrowed_as(result.0)
        &&& self.1.borrowed_as(result.1)
        &&& self.2.borrowed_as(result.2)
        &&& self.3.borrowed_as(result.3)
        &&& self.4.borrowed_as(result.4)
        &&& self.5.borrowed_as(result.5)
        &&& self.6.borrowed_as(result.6)
        &&& self.7.borrowed_as(result.7)
        &&& self.8.borrowed_as(result.8)
        &&& self.9.borrowed_as(result.9)
        &&& self.10.borrowed_as(result.10)
        &&& self.11.borrowed_as(result.11)
        &&& self.12.borrowed_as(result.12)
        &&& self.13.borrowed_as(result.13)
        &&& self.14.borrowed_as(result.14)
    }

    fn to_borrowed(&'a self) -> Self {
        (
            ToBorrowed::to_borrowed(&self.0),
            ToBorrowed::to_borrowed(&self.1),
            ToBorrowed::to_borrowed(&self.2),
            ToBorrowed::to_borrowed(&self.3),
            ToBorrowed::to_borrowed(&self.4),
            ToBorrowed::to_borrowed(&self.5),
            ToBorrowed::to_borrowed(&self.6),
            ToBorrowed::to_borrowed(&self.7),
            ToBorrowed::to_borrowed(&self.8),
            ToBorrowed::to_borrowed(&self.9),
            ToBorrowed::to_borrowed(&self.10),
            ToBorrowed::to_borrowed(&self.11),
            ToBorrowed::to_borrowed(&self.12),
            ToBorrowed::to_borrowed(&self.13),
            ToBorrowed::to_borrowed(&self.14),
        )
    }
}

impl<
    T0: ToOwned,
    T1: ToOwned,
    T2: ToOwned,
    T3: ToOwned,
    T4: ToOwned,
    T5: ToOwned,
    T6: ToOwned,
    T7: ToOwned,
    T8: ToOwned,
    T9: ToOwned,
    T10: ToOwned,
    T11: ToOwned,
    T12: ToOwned,
    T13: ToOwned,
    T14: ToOwned,
> ToOwned for (T0, T1, T2, T3, T4, T5, T6, T7, T8, T9, T10, T11, T12, T13, T14) {
    type Owned = (
        T0::Owned,
        T1::Owned,
        T2::Owned,
        T3::Owned,
        T4::Owned,
        T5::Owned,
        T6::Owned,
        T7::Owned,
        T8::Owned,
        T9::Owned,
        T10::Owned,
        T11::Owned,
        T12::Owned,
        T13::Owned,
        T14::Owned,
    );

    open spec fn owned_as(&self, result: Self::Owned) -> bool {
        &&& self.0.owned_as(result.0)
        &&& self.1.owned_as(result.1)
        &&& self.2.owned_as(result.2)
        &&& self.3.owned_as(result.3)
        &&& self.4.owned_as(result.4)
        &&& self.5.owned_as(result.5)
        &&& self.6.owned_as(result.6)
        &&& self.7.owned_as(result.7)
        &&& self.8.owned_as(result.8)
        &&& self.9.owned_as(result.9)
        &&& self.10.owned_as(result.10)
        &&& self.11.owned_as(result.11)
        &&& self.12.owned_as(result.12)
        &&& self.13.owned_as(result.13)
        &&& self.14.owned_as(result.14)
    }

    fn to_owned(&self) -> Self::Owned {
        (
            ToOwned::to_owned(&self.0),
            ToOwned::to_owned(&self.1),
            ToOwned::to_owned(&self.2),
            ToOwned::to_owned(&self.3),
            ToOwned::to_owned(&self.4),
            ToOwned::to_owned(&self.5),
            ToOwned::to_owned(&self.6),
            ToOwned::to_owned(&self.7),
            ToOwned::to_owned(&self.8),
            ToOwned::to_owned(&self.9),
            ToOwned::to_owned(&self.10),
            ToOwned::to_owned(&self.11),
            ToOwned::to_owned(&self.12),
            ToOwned::to_owned(&self.13),
            ToOwned::to_owned(&self.14),
        )
    }
}

impl<
    T0: IntoOwned,
    T1: IntoOwned,
    T2: IntoOwned,
    T3: IntoOwned,
    T4: IntoOwned,
    T5: IntoOwned,
    T6: IntoOwned,
    T7: IntoOwned,
    T8: IntoOwned,
    T9: IntoOwned,
    T10: IntoOwned,
    T11: IntoOwned,
    T12: IntoOwned,
    T13: IntoOwned,
    T14: IntoOwned,
> IntoOwned for (T0, T1, T2, T3, T4, T5, T6, T7, T8, T9, T10, T11, T12, T13, T14) {
    type Owned = (
        T0::Owned,
        T1::Owned,
        T2::Owned,
        T3::Owned,
        T4::Owned,
        T5::Owned,
        T6::Owned,
        T7::Owned,
        T8::Owned,
        T9::Owned,
        T10::Owned,
        T11::Owned,
        T12::Owned,
        T13::Owned,
        T14::Owned,
    );

    open spec fn turned_into(&self, result: Self::Owned) -> bool {
        &&& self.0.turned_into(result.0)
        &&& self.1.turned_into(result.1)
        &&& self.2.turned_into(result.2)
        &&& self.3.turned_into(result.3)
        &&& self.4.turned_into(result.4)
        &&& self.5.turned_into(result.5)
        &&& self.6.turned_into(result.6)
        &&& self.7.turned_into(result.7)
        &&& self.8.turned_into(result.8)
        &&& self.9.turned_into(result.9)
        &&& self.10.turned_into(result.10)
        &&& self.11.turned_into(result.11)
        &&& self.12.turned_into(result.12)
        &&& self.13.turned_into(result.13)
        &&& self.14.turned_into(result.14)
    }

    fn into_owned(self) -> Self::Owned {
        (
            IntoOwned::into_owned(self.0),
            IntoOwned::into_owned(self.1),
            IntoOwned::into_owned(self.2),
            IntoOwned::into_owned(self.3),
            IntoOwned::into_owned(self.4),
            IntoOwned::into_owned(self.5),
            IntoOwned::into_owned(self.6),
            IntoOwned::into_owned(self.7),
            IntoOwned::into_owned(self.8),
            IntoOwned::into_owned(self.9),
            IntoOwned::into_owned(self.10),
            IntoOwned::into_owned(self.11),
            IntoOwned::into_owned(self.12),
            IntoOwned::into_owned(self.13),
            IntoOwned::into_owned(self.14),
        )
    }
}

impl<
    'a,
    T0: ToBorrowed<'a>,
    T1: ToBorrowed<'a>,
    T2: ToBorrowed<'a>,
    T3: ToBorrowed<'a>,
    T4: ToBorrowed<'a>,
    T5: ToBorrowed<'a>,
    T6: ToBorrowed<'a>,
    T7: ToBorrowed<'a>,
    T8: ToBorrowed<'a>,
    T9: ToBorrowed<'a>,
    T10: ToBorrowed<'a>,
    T11: ToBorrowed<'a>,
    T12: ToBorrowed<'a>,
    T13: ToBorrowed<'a>,
    T14: ToBorrowed<'a>,
    T15: ToBorrowed<'a>,
> ToBorrowed<'a> for (T0, T1, T2, T3, T4, T5, T6, T7, T8, T9, T10, T11, T12, T13, T14, T15) {
    open spec fn borrowed_as(&self, result: Self) -> bool {
        &&& self.0.borrowed_as(result.0)
        &&& self.1.borrowed_as(result.1)
        &&& self.2.borrowed_as(result.2)
        &&& self.3.borrowed_as(result.3)
        &&& self.4.borrowed_as(result.4)
        &&& self.5.borrowed_as(result.5)
        &&& self.6.borrowed_as(result.6)
        &&& self.7.borrowed_as(result.7)
        &&& self.8.borrowed_as(result.8)
        &&& self.9.borrowed_as(result.9)
        &&& self.10.borrowed_as(result.10)
        &&& self.11.borrowed_as(result.11)
        &&& self.12.borrowed_as(result.12)
        &&& self.13.borrowed_as(result.13)
        &&& self.14.borrowed_as(result.14)
        &&& self.15.borrowed_as(result.15)
    }

    fn to_borrowed(&'a self) -> Self {
        (
            ToBorrowed::to_borrowed(&self.0),
            ToBorrowed::to_borrowed(&self.1),
            ToBorrowed::to_borrowed(&self.2),
            ToBorrowed::to_borrowed(&self.3),
            ToBorrowed::to_borrowed(&self.4),
            ToBorrowed::to_borrowed(&self.5),
            ToBorrowed::to_borrowed(&self.6),
            ToBorrowed::to_borrowed(&self.7),
            ToBorrowed::to_borrowed(&self.8),
            ToBorrowed::to_borrowed(&self.9),
            ToBorrowed::to_borrowed(&self.10),
            ToBorrowed::to_borrowed(&self.11),
            ToBorrowed::to_borrowed(&self.12),
            ToBorrowed::to_borrowed(&self.13),
            ToBorrowed::to_borrowed(&self.14),
            ToBorrowed::to_borrowed(&self.15),
        )
    }
}

impl<
    T0: ToOwned,
    T1: ToOwned,
    T2: ToOwned,
    T3: ToOwned,
    T4: ToOwned,
    T5: ToOwned,
    T6: ToOwned,
    T7: ToOwned,
    T8: ToOwned,
    T9: ToOwned,
    T10: ToOwned,
    T11: ToOwned,
    T12: ToOwned,
    T13: ToOwned,
    T14: ToOwned,
    T15: ToOwned,
> ToOwned for (T0, T1, T2, T3, T4, T5, T6, T7, T8, T9, T10, T11, T12, T13, T14, T15) {
    type Owned = (
        T0::Owned,
        T1::Owned,
        T2::Owned,
        T3::Owned,
        T4::Owned,
        T5::Owned,
        T6::Owned,
        T7::Owned,
        T8::Owned,
        T9::Owned,
        T10::Owned,
        T11::Owned,
        T12::Owned,
        T13::Owned,
        T14::Owned,
        T15::Owned,
    );

    open spec fn owned_as(&self, result: Self::Owned) -> bool {
        &&& self.0.owned_as(result.0)
        &&& self.1.owned_as(result.1)
        &&& self.2.owned_as(result.2)
        &&& self.3.owned_as(result.3)
        &&& self.4.owned_as(result.4)
        &&& self.5.owned_as(result.5)
        &&& self.6.owned_as(result.6)
        &&& self.7.owned_as(result.7)
        &&& self.8.owned_as(result.8)
        &&& self.9.owned_as(result.9)
        &&& self.10.owned_as(result.10)
        &&& self.11.owned_as(result.11)
        &&& self.12.owned_as(result.12)
        &&& self.13.owned_as(result.13)
        &&& self.14.owned_as(result.14)
        &&& self.15.owned_as(result.15)
    }

    fn to_owned(&self) -> Self::Owned {
        (
            ToOwned::to_owned(&self.0),
            ToOwned::to_owned(&self.1),
            ToOwned::to_owned(&self.2),
            ToOwned::to_owned(&self.3),
            ToOwned::to_owned(&self.4),
            ToOwned::to_owned(&self.5),
            ToOwned::to_owned(&self.6),
            ToOwned::to_owned(&self.7),
            ToOwned::to_owned(&self.8),
            ToOwned::to_owned(&self.9),
            ToOwned::to_owned(&self.10),
            ToOwned::to_owned(&self.11),
            ToOwned::to_owned(&self.12),
            ToOwned::to_owned(&self.13),
            ToOwned::to_owned(&self.14),
            ToOwned::to_owned(&self.15),
        )
    }
}

impl<
    T0: IntoOwned,
    T1: IntoOwned,
    T2: IntoOwned,
    T3: IntoOwned,
    T4: IntoOwned,
    T5: IntoOwned,
    T6: IntoOwned,
    T7: IntoOwned,
    T8: IntoOwned,
    T9: IntoOwned,
    T10: IntoOwned,
    T11: IntoOwned,
    T12: IntoOwned,
    T13: IntoOwned,
    T14: IntoOwned,
    T15: IntoOwned,
> IntoOwned for (T0, T1, T2, T3, T4, T5, T6, T7, T8, T9, T10, T11, T12, T13, T14, T15) {
    type Owned = (
        T0::Owned,
        T1::Owned,
        T2::Owned,
        T3::Owned,
        T4::Owned,
        T5::Owned,
        T6::Owned,
        T7::Owned,
        T8::Owned,
        T9::Owned,
        T10::Owned,
        T11::Owned,
        T12::Owned,
        T13::Owned,
        T14::Owned,
        T15::Owned,
    );

    open spec fn turned_into(&self, result: Self::Owned) -> bool {
        &&& self.0.turned_into(result.0)
        &&& self.1.turned_into(result.1)
        &&& self.2.turned_into(result.2)
        &&& self.3.turned_into(result.3)
        &&& self.4.turned_into(result.4)
        &&& self.5.turned_into(result.5)
        &&& self.6.turned_into(result.6)
        &&& self.7.turned_into(result.7)
        &&& self.8.turned_into(result.8)
        &&& self.9.turned_into(result.9)
        &&& self.10.turned_into(result.10)
        &&& self.11.turned_into(result.11)
        &&& self.12.turned_into(result.12)
        &&& self.13.turned_into(result.13)
        &&& self.14.turned_into(result.14)
        &&& self.15.turned_into(result.15)
    }

    fn into_owned(self) -> Self::Owned {
        (
            IntoOwned::into_owned(self.0),
            IntoOwned::into_owned(self.1),
            IntoOwned::into_owned(self.2),
            IntoOwned::into_owned(self.3),
            IntoOwned::into_owned(self.4),
            IntoOwned::into_owned(self.5),
            IntoOwned::into_owned(self.6),
            IntoOwned::into_owned(self.7),
            IntoOwned::into_owned(self.8),
            IntoOwned::into_owned(self.9),
            IntoOwned::into_owned(self.10),
            IntoOwned::into_owned(self.11),
            IntoOwned::into_owned(self.12),
            IntoOwned::into_owned(self.13),
            IntoOwned::into_owned(self.14),
            IntoOwned::into_owned(self.15),
        )
    }
}

} // verus!
