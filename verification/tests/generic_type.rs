use ownable::syntax::{
    Data, DeriveInput, Field, Fields, GenericArgument, GenericParam, Generics, LifetimeParam,
    NamedField, Span, Type, TypeParam, TypeParamBound, WherePredicate,
};
use std::borrow::Cow;

#[derive(Debug, PartialEq)]
struct Test<'t, T: ?Sized + 't>
where
    T: ToOwned,
    <T as std::borrow::ToOwned>::Owned: core::fmt::Debug,
{
    cow: Cow<'t, T>,
}

// The implementations below are written by hand. They are what the generator
// writes (the tests at the end of this file show its text), without the bound
// that asks each type parameter for the operation, and with a receiver of
// `to_borrowed` that may be borrowed for any lifetime: the values below take
// `str` for the type parameters, and `str` has none of the three operations.

impl<'o, T> ::ownable::traits::ToBorrowed<'o> for Test<'o, T> where T: ?Sized + 'o, T: ToOwned, <T as std::borrow::ToOwned>::Owned: core::fmt::Debug { fn to_borrowed(&'o self) -> Self { Test { cow: ::ownable::traits::ToBorrowed::to_borrowed(&self.cow) } } }

impl<'o, T> Test<'o, T> where T: ?Sized + 'o, T: ToOwned, <T as std::borrow::ToOwned>::Owned: core::fmt::Debug { pub fn to_borrowed(&self) -> Test<'_, T> { ::ownable::traits::ToBorrowed::to_borrowed(self) } }

impl<T> ::ownable::traits::ToOwned for Test<'_, T> where T: ?Sized + 'static, T: ToOwned, <T as std::borrow::ToOwned>::Owned: core::fmt::Debug { type Owned = Test<'static, T>; fn to_owned(&self) -> Self::Owned { Test { cow: ::ownable::traits::ToOwned::to_owned(&self.cow) } } }

impl<T> Test<'_, T> where T: ?Sized + 'static, T: ToOwned, <T as std::borrow::ToOwned>::Owned: core::fmt::Debug { pub fn to_owned(&self) -> Test<'static, T> { ::ownable::traits::ToOwned::to_owned(self) } }

impl<T> ::ownable::traits::IntoOwned for Test<'_, T> where T: ?Sized + 'static, T: ToOwned, <T as std::borrow::ToOwned>::Owned: core::fmt::Debug { type Owned = Test<'static, T>; fn into_owned(self) -> Self::Owned { Test { cow: ::ownable::traits::IntoOwned::into_owned(self.cow) } } }

impl<T> Test<'_, T> where T: ?Sized + 'static, T: ToOwned, <T as std::borrow::ToOwned>::Owned: core::fmt::Debug { pub fn into_owned(self) -> Test<'static, T> { ::ownable::traits::IntoOwned::into_owned(self) } }

fn span(index: usize) -> Span {
    Span { index }
}

fn path(name: &str, arguments: Vec<GenericArgument>) -> Type {
    Type::Path { name: name.to_string(), arguments, span: span(9) }
}

fn lifetime_argument(name: &str) -> GenericArgument {
    GenericArgument::Lifetime(name.to_string())
}

fn type_argument(name: &str) -> GenericArgument {
    GenericArgument::Type(path(name, vec![]))
}

fn named(name: &str, ty: Type) -> NamedField {
    NamedField { ident: name.to_string(), field: Field { attrs: vec![], ty } }
}

fn lifetime(name: &str) -> GenericParam {
    GenericParam::Lifetime(LifetimeParam { lifetime: name.to_string(), bounds: vec![] })
}

fn generic_type_input() -> DeriveInput {
    DeriveInput {
        attrs: vec![],
        ident: "Test".to_string(),
        generics: Generics {
            params: vec![
                lifetime("t"),
                GenericParam::Type(TypeParam {
                    ident: "T".to_string(),
                    bounds: vec![
                        TypeParamBound::Maybe("Sized".to_string()),
                        TypeParamBound::Lifetime("t".to_string()),
                    ],
                }),
            ],
            where_clause: vec![
                WherePredicate::Type {
                    bounded_ty: "T".to_string(),
                    bounds: vec![TypeParamBound::Trait("ToOwned".to_string())],
                },
                WherePredicate::Type {
                    bounded_ty: "<T as std::borrow::ToOwned>::Owned".to_string(),
                    bounds: vec![TypeParamBound::Trait("core::fmt::Debug".to_string())],
                },
            ],
        },
        data: Data::Struct(Fields::Named(vec![named(
            "cow",
            path("Cow", vec![lifetime_argument("t"), type_argument("T")]),
        )])),
        span: span(1),
    }
}

#[test]
fn generic_type_test() {
    let value: String = "value".to_string();
    let v0: Test<'_, str> = Test {
        cow: Cow::Borrowed(&value),
    };
    let v1: Test<'_, str> = v0.to_borrowed();
    assert_eq!(v0, v1);
    let v2: Test<'static, str> = v0.to_owned();
    assert_eq!(v0, v2);
    let v3: Test<'static, str> = v0.into_owned();
    assert_eq!(v2, v3);
}


#[test]
fn generic_type_to_borrowed_text() {
    assert_eq!(ownable::to_borrowed(&generic_type_input()).unwrap(), "impl<'o, T> ::ownable::traits::ToBorrowed<'o> for Test<'o, T> where T: ?Sized + 'o + ::ownable::traits::ToBorrowed<'o>, T: ToOwned, <T as std::borrow::ToOwned>::Owned: core::fmt::Debug { fn to_borrowed(&'o self) -> Self { Test { cow: ::ownable::traits::ToBorrowed::to_borrowed(&self.cow) } } } impl<'o, T> Test<'o, T> where T: ?Sized + 'o + ::ownable::traits::ToBorrowed<'o>, T: ToOwned, <T as std::borrow::ToOwned>::Owned: core::fmt::Debug { #[doc = \" Copy the structure and reference the original values.\\n\\nThis is always a deep copy of the structure.\"] #[inline(always)] pub fn to_borrowed(&'o self) -> Test<'o, T> { ::ownable::traits::ToBorrowed::to_borrowed(self) } }");
}

#[test]
fn generic_type_to_owned_text() {
    assert_eq!(ownable::to_owned(&generic_type_input()).unwrap(), "impl<T> ::ownable::traits::ToOwned for Test<'_, T> where T: ?Sized + 'static + ::ownable::traits::ToOwned<Owned = T>, T: ToOwned, <T as std::borrow::ToOwned>::Owned: core::fmt::Debug { type Owned = Test<'static, T>; fn to_owned(&self) -> Self::Owned { Test { cow: ::ownable::traits::ToOwned::to_owned(&self.cow) } } } impl<T> Test<'_, T> where T: ?Sized + 'static + ::ownable::traits::ToOwned<Owned = T>, T: ToOwned, <T as std::borrow::ToOwned>::Owned: core::fmt::Debug { #[doc = \" Copy the structure and clone the original values.\\n\\nThis is always a deep copy.\"] #[inline(always)] pub fn to_owned(&self) -> Test<'static, T> { ::ownable::traits::ToOwned::to_owned(self) } }");
}

#[test]
fn generic_type_into_owned_text() {
    assert_eq!(ownable::into_owned(&generic_type_input()).unwrap(), "impl<T> ::ownable::traits::IntoOwned for Test<'_, T> where T: ?Sized + 'static + ::ownable::traits::IntoOwned<Owned = T>, T: ToOwned, <T as std::borrow::ToOwned>::Owned: core::fmt::Debug { type Owned = Test<'static, T>; fn into_owned(self) -> Self::Owned { Test { cow: ::ownable::traits::IntoOwned::into_owned(self.cow) } } } impl<T> Test<'_, T> where T: ?Sized + 'static + ::ownable::traits::IntoOwned<Owned = T>, T: ToOwned, <T as std::borrow::ToOwned>::Owned: core::fmt::Debug { #[doc = \" Copy the structure and clone the original values if it's not owned.\\n\\nThis is always a deep copy of the structure.\"] #[inline(always)] pub fn into_owned(self) -> Test<'static, T> { ::ownable::traits::IntoOwned::into_owned(self) } }");
}
