use ownable::syntax::{
    ConstParam, Data, DeriveInput, Field, Fields, GenericArgument, GenericParam, Generics,
    LifetimeParam, NamedField, Span, Type,
};
use std::borrow::Cow;

#[derive(Debug, PartialEq)]
struct Test<'t, const N: usize> {
    cow: Cow<'t, [u8; N]>,
}

// The implementations as the generator writes them (the tests at the end of
// this file compare), but for the attributes of the convenience methods.

impl<'o, const N: usize> ::ownable::traits::ToBorrowed<'o> for Test<'o, N> { fn to_borrowed(&'o self) -> Self { Test { cow: ::ownable::traits::ToBorrowed::to_borrowed(&self.cow) } } }

impl<'o, const N: usize> Test<'o, N> { pub fn to_borrowed(&self) -> Test<'_, N> { ::ownable::traits::ToBorrowed::to_borrowed(self) } }

impl<const N: usize> ::ownable::traits::ToOwned for Test<'_, N> { type Owned = Test<'static, N>; fn to_owned(&self) -> Self::Owned { Test { cow: ::ownable::traits::ToOwned::to_owned(&self.cow) } } }

impl<const N: usize> Test<'_, N> { pub fn to_owned(&self) -> Test<'static, N> { ::ownable::traits::ToOwned::to_owned(self) } }

impl<const N: usize> ::ownable::traits::IntoOwned for Test<'_, N> { type Owned = Test<'static, N>; fn into_owned(self) -> Self::Owned { Test { cow: ::ownable::traits::IntoOwned::into_owned(self.cow) } } }

impl<const N: usize> Test<'_, N> { pub fn into_owned(self) -> Test<'static, N> { ::ownable::traits::IntoOwned::into_owned(self) } }

fn span(index: usize) -> Span {
    Span { index }
}

fn path(name: &str, arguments: Vec<GenericArgument>) -> Type {
    Type::Path { name: name.to_string(), arguments, span: span(9) }
}

fn lifetime_argument(name: &str) -> GenericArgument {
    GenericArgument::Lifetime(name.to_string())
}

fn type_argument(name: &str) -> GenericArgument {
    GenericArgument::Type(path(name, vec![]))
}

fn named(name: &str, ty: Type) -> NamedField {
    NamedField { ident: name.to_string(), field: Field { attrs: vec![], ty } }
}

fn lifetime(name: &str) -> GenericParam {
    GenericParam::Lifetime(LifetimeParam { lifetime: name.to_string(), bounds: vec![] })
}

fn const_generic_input() -> DeriveInput {
    DeriveInput {
        attrs: vec![],
        ident: "Test".to_string(),
        generics: Generics {
            params: vec![
                lifetime("t"),
                GenericParam::Const(ConstParam { ident: "N".to_string(), ty: "usize".to_string() }),
            ],
            where_clause: vec![],
        },
        data: Data::Struct(Fields::Named(vec![named(
            "cow",
            path(
                "Cow",
                vec![
                    lifetime_argument("t"),
                    GenericArgument::Type(path(
                        "[;]",
                        vec![type_argument("u8"), GenericArgument::Const("N".to_string())],
                    )),
                ],
            ),
        )])),
        span: span(1),
    }
}

#[test]
fn const_generic_test() {
    let value: &[u8; 5] = b"value";
    let v0: Test<'_, 5> = Test {
        cow: Cow::Borrowed(value),
    };
    let v1: Test<'_, 5> = v0.to_borrowed();
    assert_eq!(v0, v1);
    let v2: Test<'static, 5> = v0.to_owned();
    assert_eq!(v0, v2);
    let v3: Test<'static, 5> = v0.into_owned();
    assert_eq!(v2, v3);
}


#[test]
fn const_generic_to_borrowed_text() {
    assert_eq!(ownable::to_borrowed(&const_generic_input()).unwrap(), "impl<'o, const N: usize> ::ownable::traits::ToBorrowed<'o> for Test<'o, N> { fn to_borrowed(&'o self) -> Self { Test { cow: ::ownable::traits::ToBorrowed::to_borrowed(&self.cow) } } } impl<'o, const N: usize> Test<'o, N> { #[doc = \" Copy the structure and reference the original values.\\n\\nThis is always a deep copy of the structure.\"] #[inline(always)] pub fn to_borrowed(&self) -> Test<'_, N> { ::ownable::traits::ToBorrowed::to_borrowed(self) } }");
}

#[test]
fn const_generic_to_owned_text() {
    assert_eq!(ownable::to_owned(&const_generic_input()).unwrap(), "impl<const N: usize> ::ownable::traits::ToOwned for Test<'_, N> { type Owned = Test<'static, N>; fn to_owned(&self) -> Self::Owned { Test { cow: ::ownable::traits::ToOwned::to_owned(&self.cow) } } } impl<const N: usize> Test<'_, N> { #[doc = \" Copy the structure and clone the original values.\\n\\nThis is always a deep copy.\"] #[inline(always)] pub fn to_owned(&self) -> Test<'static, N> { ::ownable::traits::ToOwned::to_owned(self) } }");
}

#[test]
fn const_generic_into_owned_text() {
    assert_eq!(ownable::into_owned(&const_generic_input()).unwrap(), "impl<const N: usize> ::ownable::traits::IntoOwned for Test<'_, N> { type Owned = Test<'static, N>; fn into_owned(self) -> Self::Owned { Test { cow: ::ownable::traits::IntoOwned::into_owned(self.cow) } } } impl<const N: usize> Test<'_, N> { #[doc = \" Copy the structure and clone the original values if it's not owned.\\n\\nThis is always a deep copy of the structure.\"] #[inline(always)] pub fn into_owned(self) -> Test<'static, N> { ::ownable::traits::IntoOwned::into_owned(self) } }");
}
