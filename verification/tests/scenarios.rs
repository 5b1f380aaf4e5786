use ownable::syntax::{
    Attribute, Data, DeriveInput, Field, Fields, GenericArgument, GenericParam, Generics,
    LifetimeParam, Lit, LitKind, Meta, NamedField, NestedMeta, Path, Span, Type, TypeParam,
    TypeParamBound, Variant,
};
use std::borrow::Cow;

#[derive(Debug, PartialEq)]
struct Pair<'a> {
    a: Cow<'a, str>,
    b: u64,
}

#[derive(Debug, PartialEq)]
struct Link<'a, 'b> {
    cow: Cow<'a, str>,
    referenced: &'b str,
}

#[derive(Debug, PartialEq)]
struct Inner<'a> {
    value: Cow<'a, str>,
}

#[derive(Debug, PartialEq)]
struct Outer<'a> {
    inner: Option<Box<Inner<'a>>>,
}

#[derive(Debug, PartialEq)]
enum Shape<'a> {
    Unit,
    Named { name: Cow<'a, str>, size: u32 },
    Positional(Cow<'a, str>, u8),
}

#[derive(Debug, PartialEq)]
struct Forced<'a> {
    cow: Cow<'a, str>,
    owned: String,
}

#[derive(Debug, PartialEq)]
struct Mixed<'a> {
    first: String,
    second: Cow<'a, str>,
    third: String,
}

#[derive(Debug, PartialEq)]
struct Multi<'a, 'b, 'c>(&'b str, &'c str, Cow<'a, str>);

#[derive(Debug, PartialEq)]
enum Hollow<'a> {
    Braces {},
    Parens(),
    Full(Cow<'a, str>),
}

#[derive(Debug, PartialEq)]
struct Marker;

#[derive(Debug, PartialEq)]
struct Nested<'a, T> {
    text: Cow<'a, str>,
    items: Vec<T>,
}

#[derive(Debug, PartialEq)]
struct Taken<'o> {
    text: Cow<'o, str>,
}

#[derive(Debug, PartialEq)]
struct Chain<'a, 'b: 'a> {
    text: Cow<'a, str>,
    link: &'b str,
}

#[derive(Debug, PartialEq)]
struct Wrapper<'a, T, U: Clone> {
    text: Cow<'a, str>,
    value: T,
    other: U,
}

// The implementations as the generator writes them (the tests whose names
// end in `_text` compare), but for the attributes of the convenience methods.

impl<'o> ::ownable::traits::ToBorrowed<'o> for Pair<'o> { fn to_borrowed(&'o self) -> Self { Pair { a: ::ownable::traits::ToBorrowed::to_borrowed(&self.a), b: ::ownable::traits::ToBorrowed::to_borrowed(&self.b) } } }

impl<'o> Pair<'o> { pub fn to_borrowed(&self) -> Pair<'_> { ::ownable::traits::ToBorrowed::to_borrowed(self) } }

impl ::ownable::traits::ToOwned for Pair<'_> { type Owned = Pair<'static>; fn to_owned(&self) -> Self::Owned { Pair { a: ::ownable::traits::ToOwned::to_owned(&self.a), b: ::ownable::traits::ToOwned::to_owned(&self.b) } } }

impl Pair<'_> { pub fn to_owned(&self) -> Pair<'static> { ::ownable::traits::ToOwned::to_owned(self) } }

impl ::ownable::traits::IntoOwned for Pair<'_> { type Owned = Pair<'static>; fn into_owned(self) -> Self::Owned { Pair { a: ::ownable::traits::IntoOwned::into_owned(self.a), b: ::ownable::traits::IntoOwned::into_owned(self.b) } } }

impl Pair<'_> { pub fn into_owned(self) -> Pair<'static> { ::ownable::traits::IntoOwned::into_owned(self) } }

impl<'o, 'b> ::ownable::traits::ToBorrowed<'o> for Link<'o, 'b> { fn to_borrowed(&'o self) -> Self { Link { cow: ::ownable::traits::ToBorrowed::to_borrowed(&self.cow), referenced: self.referenced } } }

impl<'o, 'b> Link<'o, 'b> { pub fn to_borrowed(&self) -> Link<'_, 'b> { ::ownable::traits::ToBorrowed::to_borrowed(self) } }

impl<'b> ::ownable::traits::ToOwned for Link<'_, 'b> { type Owned = Link<'static, 'b>; fn to_owned(&self) -> Self::Owned { Link { cow: ::ownable::traits::ToOwned::to_owned(&self.cow), referenced: self.referenced } } }

impl<'b> Link<'_, 'b> { pub fn to_owned(&self) -> Link<'static, 'b> { ::ownable::traits::ToOwned::to_owned(self) } }

impl<'b> ::ownable::traits::IntoOwned for Link<'_, 'b> { type Owned = Link<'static, 'b>; fn into_owned(self) -> Self::Owned { Link { cow: ::ownable::traits::IntoOwned::into_owned(self.cow), referenced: self.referenced } } }

impl<'b> Link<'_, 'b> { pub fn into_owned(self) -> Link<'static, 'b> { ::ownable::traits::IntoOwned::into_owned(self) } }

impl<'o> ::ownable::traits::ToBorrowed<'o> for Inner<'o> { fn to_borrowed(&'o self) -> Self { Inner { value: ::ownable::traits::ToBorrowed::to_borrowed(&self.value) } } }

impl<'o> Inner<'o> { pub fn to_borrowed(&self) -> Inner<'_> { ::ownable::traits::ToBorrowed::to_borrowed(self) } }

impl ::ownable::traits::ToOwned for Inner<'_> { type Owned = Inner<'static>; fn to_owned(&self) -> Self::Owned { Inner { value: ::ownable::traits::ToOwned::to_owned(&self.value) } } }

impl Inner<'_> { pub fn to_owned(&self) -> Inner<'static> { ::ownable::traits::ToOwned::to_owned(self) } }

impl ::ownable::traits::IntoOwned for Inner<'_> { type Owned = Inner<'static>; fn into_owned(self) -> Self::Owned { Inner { value: ::ownable::traits::IntoOwned::into_owned(self.value) } } }

impl Inner<'_> { pub fn into_owned(self) -> Inner<'static> { ::ownable::traits::IntoOwned::into_owned(self) } }

impl<'o> ::ownable::traits::ToBorrowed<'o> for Outer<'o> { fn to_borrowed(&'o self) -> Self { Outer { inner: ::ownable::traits::ToBorrowed::to_borrowed(&self.inner) } } }

impl<'o> Outer<'o> { pub fn to_borrowed(&self) -> Outer<'_> { ::ownable::traits::ToBorrowed::to_borrowed(self) } }

impl ::ownable::traits::ToOwned for Outer<'_> { type Owned = Outer<'static>; fn to_owned(&self) -> Self::Owned { Outer { inner: ::ownable::traits::ToOwned::to_owned(&self.inner) } } }

impl Outer<'_> { pub fn to_owned(&self) -> Outer<'static> { ::ownable::traits::ToOwned::to_owned(self) } }

impl ::ownable::traits::IntoOwned for Outer<'_> { type Owned = Outer<'static>; fn into_owned(self) -> Self::Owned { Outer { inner: ::ownable::traits::IntoOwned::into_owned(self.inner) } } }

impl Outer<'_> { pub fn into_owned(self) -> Outer<'static> { ::ownable::traits::IntoOwned::into_owned(self) } }

impl<'o> ::ownable::traits::ToBorrowed<'o> for Shape<'o> { fn to_borrowed(&'o self) -> Self { match self { Shape::Unit => Shape::Unit, Shape::Named { name, size } => Shape::Named { name: ::ownable::traits::ToBorrowed::to_borrowed(name), size: ::ownable::traits::ToBorrowed::to_borrowed(size) }, Shape::Positional(arg0, arg1) => Shape::Positional(::ownable::traits::ToBorrowed::to_borrowed(arg0), ::ownable::traits::ToBorrowed::to_borrowed(arg1)) } } }

impl<'o> Shape<'o> { pub fn to_borrowed(&self) -> Shape<'_> { ::ownable::traits::ToBorrowed::to_borrowed(self) } }

impl ::ownable::traits::ToOwned for Shape<'_> { type Owned = Shape<'static>; fn to_owned(&self) -> Self::Owned { match self { Shape::Unit => Shape::Unit, Shape::Named { name, size } => Shape::Named { name: ::ownable::traits::ToOwned::to_owned(name), size: ::ownable::traits::ToOwned::to_owned(size) }, Shape::Positional(arg0, arg1) => Shape::Positional(::ownable::traits::ToOwned::to_owned(arg0), ::ownable::traits::ToOwned::to_owned(arg1)) } } }

impl Shape<'_> { pub fn to_owned(&self) -> Shape<'static> { ::ownable::traits::ToOwned::to_owned(self) } }

impl ::ownable::traits::IntoOwned for Shape<'_> { type Owned = Shape<'static>; fn into_owned(self) -> Self::Owned { match self { Shape::Unit => Shape::Unit, Shape::Named { name, size } => Shape::Named { name: ::ownable::traits::IntoOwned::into_owned(name), size: ::ownable::traits::IntoOwned::into_owned(size) }, Shape::Positional(arg0, arg1) => Shape::Positional(::ownable::traits::IntoOwned::into_owned(arg0), ::ownable::traits::IntoOwned::into_owned(arg1)) } } }

impl Shape<'_> { pub fn into_owned(self) -> Shape<'static> { ::ownable::traits::IntoOwned::into_owned(self) } }

impl<'o> ::ownable::traits::ToBorrowed<'o> for Forced<'o> { fn to_borrowed(&'o self) -> Self { Forced { cow: ::ownable::traits::ToBorrowed::to_borrowed(&self.cow), owned: ::core::clone::Clone::clone(&self.owned) } } }

impl<'o> Forced<'o> { pub fn to_borrowed(&self) -> Forced<'_> { ::ownable::traits::ToBorrowed::to_borrowed(self) } }

impl ::ownable::traits::ToOwned for Forced<'_> { type Owned = Forced<'static>; fn to_owned(&self) -> Self::Owned { Forced { cow: ::ownable::traits::ToOwned::to_owned(&self.cow), owned: ::core::clone::Clone::clone(&self.owned) } } }

impl Forced<'_> { pub fn to_owned(&self) -> Forced<'static> { ::ownable::traits::ToOwned::to_owned(self) } }

impl ::ownable::traits::IntoOwned for Forced<'_> { type Owned = Forced<'static>; fn into_owned(self) -> Self::Owned { Forced { cow: ::ownable::traits::IntoOwned::into_owned(self.cow), owned: ::core::clone::Clone::clone(&self.owned) } } }

impl Forced<'_> { pub fn into_owned(self) -> Forced<'static> { ::ownable::traits::IntoOwned::into_owned(self) } }

impl<'o> ::ownable::traits::ToBorrowed<'o> for Mixed<'o> { fn to_borrowed(&'o self) -> Self { Mixed { first: ::core::clone::Clone::clone(&self.first), second: ::ownable::traits::ToBorrowed::to_borrowed(&self.second), third: ::core::clone::Clone::clone(&self.third) } } }

impl<'o> Mixed<'o> { pub fn to_borrowed(&self) -> Mixed<'_> { ::ownable::traits::ToBorrowed::to_borrowed(self) } }

impl ::ownable::traits::ToOwned for Mixed<'_> { type Owned = Mixed<'static>; fn to_owned(&self) -> Self::Owned { Mixed { first: ::core::clone::Clone::clone(&self.first), second: ::ownable::traits::ToOwned::to_owned(&self.second), third: ::core::clone::Clone::clone(&self.third) } } }

impl Mixed<'_> { pub fn to_owned(&self) -> Mixed<'static> { ::ownable::traits::ToOwned::to_owned(self) } }

impl ::ownable::traits::IntoOwned for Mixed<'_> { type Owned = Mixed<'static>; fn into_owned(self) -> Self::Owned { Mixed { first: ::core::clone::Clone::clone(&self.first), second: ::ownable::traits::IntoOwned::into_owned(self.second), third: ::core::clone::Clone::clone(&self.third) } } }

impl Mixed<'_> { pub fn into_owned(self) -> Mixed<'static> { ::ownable::traits::IntoOwned::into_owned(self) } }

impl<'o, 'b, 'c> ::ownable::traits::ToBorrowed<'o> for Multi<'o, 'b, 'c> { fn to_borrowed(&'o self) -> Self { Multi(self.0, self.1, ::ownable::traits::ToBorrowed::to_borrowed(&self.2)) } }

impl<'o, 'b, 'c> Multi<'o, 'b, 'c> { pub fn to_borrowed(&self) -> Multi<'_, 'b, 'c> { ::ownable::traits::ToBorrowed::to_borrowed(self) } }

impl<'b, 'c> ::ownable::traits::ToOwned for Multi<'_, 'b, 'c> { type Owned = Multi<'static, 'b, 'c>; fn to_owned(&self) -> Self::Owned { Multi(self.0, self.1, ::ownable::traits::ToOwned::to_owned(&self.2)) } }

impl<'b, 'c> Multi<'_, 'b, 'c> { pub fn to_owned(&self) -> Multi<'static, 'b, 'c> { ::ownable::traits::ToOwned::to_owned(self) } }

impl<'b, 'c> ::ownable::traits::IntoOwned for Multi<'_, 'b, 'c> { type Owned = Multi<'static, 'b, 'c>; fn into_owned(self) -> Self::Owned { Multi(self.0, self.1, ::ownable::traits::IntoOwned::into_owned(self.2)) } }

impl<'b, 'c> Multi<'_, 'b, 'c> { pub fn into_owned(self) -> Multi<'static, 'b, 'c> { ::ownable::traits::IntoOwned::into_owned(self) } }

impl<'o> ::ownable::traits::ToBorrowed<'o> for Hollow<'o> { fn to_borrowed(&'o self) -> Self { match self { Hollow::Braces {  } => Hollow::Braces {  }, Hollow::Parens() => Hollow::Parens(), Hollow::Full(arg0) => Hollow::Full(::ownable::traits::ToBorrowed::to_borrowed(arg0)) } } }

impl<'o> Hollow<'o> { pub fn to_borrowed(&self) -> Hollow<'_> { ::ownable::traits::ToBorrowed::to_borrowed(self) } }

impl ::ownable::traits::ToOwned for Hollow<'_> { type Owned = Hollow<'static>; fn to_owned(&self) -> Self::Owned { match self { Hollow::Braces {  } => Hollow::Braces {  }, Hollow::Parens() => Hollow::Parens(), Hollow::Full(arg0) => Hollow::Full(::ownable::traits::ToOwned::to_owned(arg0)) } } }

impl Hollow<'_> { pub fn to_owned(&self) -> Hollow<'static> { ::ownable::traits::ToOwned::to_owned(self) } }

impl ::ownable::traits::IntoOwned for Hollow<'_> { type Owned = Hollow<'static>; fn into_owned(self) -> Self::Owned { match self { Hollow::Braces {  } => Hollow::Braces {  }, Hollow::Parens() => Hollow::Parens(), Hollow::Full(arg0) => Hollow::Full(::ownable::traits::IntoOwned::into_owned(arg0)) } } }

impl Hollow<'_> { pub fn into_owned(self) -> Hollow<'static> { ::ownable::traits::IntoOwned::into_owned(self) } }

impl ::ownable::traits::ToOwned for Marker { type Owned = Marker; fn to_owned(&self) -> Self::Owned { Marker } }

impl Marker { pub fn to_owned(&self) -> Marker { ::ownable::traits::ToOwned::to_owned(self) } }

impl ::ownable::traits::IntoOwned for Marker { type Owned = Marker; fn into_owned(self) -> Self::Owned { Marker } }

impl Marker { pub fn into_owned(self) -> Marker { ::ownable::traits::IntoOwned::into_owned(self) } }

impl<'o, T> ::ownable::traits::ToBorrowed<'o> for Nested<'o, T> where T: ::ownable::traits::ToBorrowed<'o> { fn to_borrowed(&'o self) -> Self { Nested { text: ::ownable::traits::ToBorrowed::to_borrowed(&self.text), items: ::ownable::traits::ToBorrowed::to_borrowed(&self.items) } } }

impl<'o, T> Nested<'o, T> where T: ::ownable::traits::ToBorrowed<'o> { pub fn to_borrowed(&'o self) -> Nested<'o, T> { ::ownable::traits::ToBorrowed::to_borrowed(self) } }

impl<T> ::ownable::traits::ToOwned for Nested<'_, T> where T: ::ownable::traits::ToOwned<Owned = T> { type Owned = Nested<'static, T>; fn to_owned(&self) -> Self::Owned { Nested { text: ::ownable::traits::ToOwned::to_owned(&self.text), items: ::ownable::traits::ToOwned::to_owned(&self.items) } } }

impl<T> Nested<'_, T> where T: ::ownable::traits::ToOwned<Owned = T> { pub fn to_owned(&self) -> Nested<'static, T> { ::ownable::traits::ToOwned::to_owned(self) } }

impl<T> ::ownable::traits::IntoOwned for Nested<'_, T> where T: ::ownable::traits::IntoOwned<Owned = T> { type Owned = Nested<'static, T>; fn into_owned(self) -> Self::Owned { Nested { text: ::ownable::traits::IntoOwned::into_owned(self.text), items: ::ownable::traits::IntoOwned::into_owned(self.items) } } }

impl<T> Nested<'_, T> where T: ::ownable::traits::IntoOwned<Owned = T> { pub fn into_owned(self) -> Nested<'static, T> { ::ownable::traits::IntoOwned::into_owned(self) } }

impl<'ow> ::ownable::traits::ToBorrowed<'ow> for Taken<'ow> { fn to_borrowed(&'ow self) -> Self { Taken { text: ::ownable::traits::ToBorrowed::to_borrowed(&self.text) } } }

impl<'ow> Taken<'ow> { pub fn to_borrowed(&self) -> Taken<'_> { ::ownable::traits::ToBorrowed::to_borrowed(self) } }

impl ::ownable::traits::ToOwned for Taken<'_> { type Owned = Taken<'static>; fn to_owned(&self) -> Self::Owned { Taken { text: ::ownable::traits::ToOwned::to_owned(&self.text) } } }

impl Taken<'_> { pub fn to_owned(&self) -> Taken<'static> { ::ownable::traits::ToOwned::to_owned(self) } }

impl ::ownable::traits::IntoOwned for Taken<'_> { type Owned = Taken<'static>; fn into_owned(self) -> Self::Owned { Taken { text: ::ownable::traits::IntoOwned::into_owned(self.text) } } }

impl Taken<'_> { pub fn into_owned(self) -> Taken<'static> { ::ownable::traits::IntoOwned::into_owned(self) } }

impl<'o, 'b> ::ownable::traits::ToBorrowed<'o> for Chain<'o, 'b> where 'b: 'o { fn to_borrowed(&'o self) -> Self { Chain { text: ::ownable::traits::ToBorrowed::to_borrowed(&self.text), link: self.link } } }

impl<'o, 'b> Chain<'o, 'b> where 'b: 'o { pub fn to_borrowed(&self) -> Chain<'_, 'b> { ::ownable::traits::ToBorrowed::to_borrowed(self) } }

impl<'b> ::ownable::traits::ToOwned for Chain<'_, 'b> where 'b: 'static { type Owned = Chain<'static, 'b>; fn to_owned(&self) -> Self::Owned { Chain { text: ::ownable::traits::ToOwned::to_owned(&self.text), link: self.link } } }

impl<'b> Chain<'_, 'b> where 'b: 'static { pub fn to_owned(&self) -> Chain<'static, 'b> { ::ownable::traits::ToOwned::to_owned(self) } }

impl<'b> ::ownable::traits::IntoOwned for Chain<'_, 'b> where 'b: 'static { type Owned = Chain<'static, 'b>; fn into_owned(self) -> Self::Owned { Chain { text: ::ownable::traits::IntoOwned::into_owned(self.text), link: self.link } } }

impl<'b> Chain<'_, 'b> where 'b: 'static { pub fn into_owned(self) -> Chain<'static, 'b> { ::ownable::traits::IntoOwned::into_owned(self) } }

impl<'o, T, U> ::ownable::traits::ToBorrowed<'o> for Wrapper<'o, T, U> where T: ::ownable::traits::ToBorrowed<'o>, U: Clone + ::ownable::traits::ToBorrowed<'o> { fn to_borrowed(&'o self) -> Self { Wrapper { text: ::ownable::traits::ToBorrowed::to_borrowed(&self.text), value: ::ownable::traits::ToBorrowed::to_borrowed(&self.value), other: ::core::clone::Clone::clone(&self.other) } } }

impl<'o, T, U> Wrapper<'o, T, U> where T: ::ownable::traits::ToBorrowed<'o>, U: Clone + ::ownable::traits::ToBorrowed<'o> { pub fn to_borrowed(&'o self) -> Wrapper<'o, T, U> { ::ownable::traits::ToBorrowed::to_borrowed(self) } }

impl<T, U> ::ownable::traits::ToOwned for Wrapper<'_, T, U> where T: ::ownable::traits::ToOwned<Owned = T>, U: Clone + ::ownable::traits::ToOwned<Owned = U> { type Owned = Wrapper<'static, T, U>; fn to_owned(&self) -> Self::Owned { Wrapper { text: ::ownable::traits::ToOwned::to_owned(&self.text), value: ::ownable::traits::ToOwned::to_owned(&self.value), other: ::core::clone::Clone::clone(&self.other) } } }

impl<T, U> Wrapper<'_, T, U> where T: ::ownable::traits::ToOwned<Owned = T>, U: Clone + ::ownable::traits::ToOwned<Owned = U> { pub fn to_owned(&self) -> Wrapper<'static, T, U> { ::ownable::traits::ToOwned::to_owned(self) } }

impl<T, U> ::ownable::traits::IntoOwned for Wrapper<'_, T, U> where T: ::ownable::traits::IntoOwned<Owned = T>, U: Clone + ::ownable::traits::IntoOwned<Owned = U> { type Owned = Wrapper<'static, T, U>; fn into_owned(self) -> Self::Owned { Wrapper { text: ::ownable::traits::IntoOwned::into_owned(self.text), value: ::ownable::traits::IntoOwned::into_owned(self.value), other: ::core::clone::Clone::clone(&self.other) } } }

impl<T, U> Wrapper<'_, T, U> where T: ::ownable::traits::IntoOwned<Owned = T>, U: Clone + ::ownable::traits::IntoOwned<Owned = U> { pub fn into_owned(self) -> Wrapper<'static, T, U> { ::ownable::traits::IntoOwned::into_owned(self) } }

fn span(index: usize) -> Span {
    Span { index }
}

fn path(name: &str, arguments: Vec<GenericArgument>) -> Type {
    Type::Path { name: name.to_string(), arguments, span: span(9) }
}

fn plain(name: &str) -> Type {
    path(name, vec![])
}

fn cow(lifetime: &str) -> Type {
    path(
        "Cow",
        vec![
            GenericArgument::Lifetime(lifetime.to_string()),
            GenericArgument::Type(plain("str")),
        ],
    )
}

fn field(ty: Type) -> Field {
    Field { attrs: vec![], ty }
}

fn named(name: &str, ty: Type) -> NamedField {
    NamedField { ident: name.to_string(), field: field(ty) }
}

fn lifetime(name: &str) -> GenericParam {
    GenericParam::Lifetime(LifetimeParam { lifetime: name.to_string(), bounds: vec![] })
}

fn generics(lifetimes: &[&str]) -> Generics {
    Generics { params: lifetimes.iter().map(|l| lifetime(l)).collect(), where_clause: vec![] }
}

fn ident(name: &str) -> Path {
    Path { ident: Some(name.to_string()), span: span(30) }
}

fn options(items: Vec<NestedMeta>) -> Attribute {
    Attribute { path: ident("ownable"), meta: Meta::List { nested: Ok(items) }, span: span(31) }
}

fn flag(name: &str) -> NestedMeta {
    NestedMeta::Path { path: ident(name), span: span(32) }
}

fn flag_value(name: &str, value: bool) -> NestedMeta {
    NestedMeta::NameValue {
        path: ident(name),
        value: Some(Lit { kind: LitKind::Bool(value), span: span(33) }),
        span: span(34),
    }
}

fn text_value(name: &str, value: &str) -> NestedMeta {
    NestedMeta::NameValue {
        path: ident(name),
        value: Some(Lit { kind: LitKind::Str(value.to_string()), span: span(35) }),
        span: span(36),
    }
}

fn input(name: &str, lifetimes: &[&str], attrs: Vec<Attribute>, data: Data) -> DeriveInput {
    DeriveInput { attrs, ident: name.to_string(), generics: generics(lifetimes), data, span: span(1) }
}

fn pair_input() -> DeriveInput {
    input(
        "Pair",
        &["a"],
        vec![],
        Data::Struct(Fields::Named(vec![named("a", cow("a")), named("b", plain("u64"))])),
    )
}

fn reference_field(lifetime: &str) -> Type {
    Type::Reference {
        lifetime: Some(lifetime.to_string()),
        mutable: false,
        elem: Box::new(plain("str")),
        span: span(8),
    }
}

fn ref_input() -> DeriveInput {
    input(
        "Ref",
        &["a", "b"],
        vec![options(vec![text_value("reference", "'b")])],
        Data::Struct(Fields::Named(vec![named("r", reference_field("b"))])),
    )
}

fn link_input() -> DeriveInput {
    input(
        "Link",
        &["a", "b"],
        vec![options(vec![text_value("reference", "'b")])],
        Data::Struct(Fields::Named(vec![
            named("cow", cow("a")),
            named("referenced", reference_field("b")),
        ])),
    )
}

fn inner_input() -> DeriveInput {
    input("Inner", &["a"], vec![], Data::Struct(Fields::Named(vec![named("value", cow("a"))])))
}

fn outer_input() -> DeriveInput {
    let inner = path("Inner", vec![GenericArgument::Lifetime("a".to_string())]);
    let boxed = path("Box", vec![GenericArgument::Type(inner)]);
    let optional = path("Option", vec![GenericArgument::Type(boxed)]);
    input("Outer", &["a"], vec![], Data::Struct(Fields::Named(vec![named("inner", optional)])))
}

fn shape_input() -> DeriveInput {
    input(
        "Shape",
        &["a"],
        vec![],
        Data::Enum(vec![
            Variant { attrs: vec![], ident: "Unit".to_string(), fields: Fields::Unit },
            Variant {
                attrs: vec![],
                ident: "Named".to_string(),
                fields: Fields::Named(vec![named("name", cow("a")), named("size", plain("u32"))]),
            },
            Variant {
                attrs: vec![],
                ident: "Positional".to_string(),
                fields: Fields::Unnamed(vec![field(cow("a")), field(plain("u8"))]),
            },
        ]),
    )
}

fn forced_input() -> DeriveInput {
    let mut owned = named("owned", plain("String"));
    owned.field.attrs = vec![options(vec![flag("clone")])];
    input(
        "Forced",
        &["a"],
        vec![],
        Data::Struct(Fields::Named(vec![named("cow", cow("a")), owned])),
    )
}

fn mixed_input() -> DeriveInput {
    let mut second = named("second", cow("a"));
    second.field.attrs = vec![options(vec![flag_value("clone", false)])];
    input(
        "Mixed",
        &["a"],
        vec![options(vec![flag_value("clone", true)])],
        Data::Struct(Fields::Named(vec![
            named("first", plain("String")),
            second,
            named("third", plain("String")),
        ])),
    )
}

fn multi_input() -> DeriveInput {
    input(
        "Multi",
        &["a", "b", "c"],
        vec![options(vec![text_value("reference", "'b, 'c")])],
        Data::Struct(Fields::Unnamed(vec![
            field(reference_field("b")),
            field(reference_field("c")),
            field(cow("a")),
        ])),
    )
}

fn hollow_input() -> DeriveInput {
    input(
        "Hollow",
        &["a"],
        vec![],
        Data::Enum(vec![
            Variant { attrs: vec![], ident: "Braces".to_string(), fields: Fields::Named(vec![]) },
            Variant { attrs: vec![], ident: "Parens".to_string(), fields: Fields::Unnamed(vec![]) },
            Variant {
                attrs: vec![],
                ident: "Full".to_string(),
                fields: Fields::Unnamed(vec![field(cow("a"))]),
            },
        ]),
    )
}

fn marker_input() -> DeriveInput {
    input("Marker", &[], vec![], Data::Struct(Fields::Unit))
}

fn nested_input() -> DeriveInput {
    let mut described = input(
        "Nested",
        &["a"],
        vec![],
        Data::Struct(Fields::Named(vec![
            named("text", cow("a")),
            named("items", path("Vec", vec![GenericArgument::Type(plain("T"))])),
        ])),
    );
    described.generics.params.push(GenericParam::Type(TypeParam {
        ident: "T".to_string(),
        bounds: vec![],
    }));
    described
}

fn taken_input() -> DeriveInput {
    input("Taken", &["o"], vec![], Data::Struct(Fields::Named(vec![named("text", cow("o"))])))
}

fn chain_input() -> DeriveInput {
    let mut described = input(
        "Chain",
        &["a"],
        vec![options(vec![text_value("reference", "'b")])],
        Data::Struct(Fields::Named(vec![
            named("text", cow("a")),
            named("link", reference_field("b")),
        ])),
    );
    described.generics.params.push(GenericParam::Lifetime(LifetimeParam {
        lifetime: "b".to_string(),
        bounds: vec!["a".to_string()],
    }));
    described
}

fn wrapper_input() -> DeriveInput {
    let mut other = named("other", plain("U"));
    other.field.attrs = vec![options(vec![flag("clone")])];
    let mut described = input(
        "Wrapper",
        &["a"],
        vec![],
        Data::Struct(Fields::Named(vec![
            named("text", cow("a")),
            named("value", plain("T")),
            other,
        ])),
    );
    described.generics.params.push(GenericParam::Type(TypeParam {
        ident: "T".to_string(),
        bounds: vec![],
    }));
    described.generics.params.push(GenericParam::Type(TypeParam {
        ident: "U".to_string(),
        bounds: vec![TypeParamBound::Trait("Clone".to_string())],
    }));
    described
}

#[test]
fn pair_borrowed_view_shares_the_text() {
    let text = "shared".to_string();
    let v = Pair { a: Cow::Owned(text), b: 7 };
    let view = v.to_borrowed();
    assert_eq!(view, v);
    assert_eq!(view.b, 7);
    match (&view.a, &v.a) {
        (Cow::Borrowed(seen), Cow::Owned(held)) => assert!(std::ptr::eq(*seen, held.as_str())),
        _ => panic!("the view must borrow from the owned value"),
    }
}

#[test]
fn pair_owned_copies_are_equal_by_content() {
    let text = "content".to_string();
    let v = Pair { a: Cow::Borrowed(text.as_str()), b: 64 };
    let copied: Pair<'static> = v.to_owned();
    assert!(matches!(copied.a, Cow::Owned(_)));
    assert_eq!(copied.a, "content");
    assert_eq!(copied.b, 64);
    let consumed: Pair<'static> = v.into_owned();
    assert!(matches!(consumed.a, Cow::Owned(_)));
    assert_eq!(consumed, copied);
}

#[test]
fn pair_three_roads_agree() {
    let text = "value".to_string();
    let v = Pair { a: Cow::Borrowed(text.as_str()), b: 1 };
    let first: Pair<'static> = v.to_borrowed().into_owned();
    let second: Pair<'static> = v.to_owned();
    let third: Pair<'static> = v.into_owned();
    assert_eq!(first, second);
    assert_eq!(second, third);
}

#[test]
fn pair_to_borrowed_text() {
    assert_eq!(ownable::to_borrowed(&pair_input()).unwrap(), "impl<'o> ::ownable::traits::ToBorrowed<'o> for Pair<'o> { fn to_borrowed(&'o self) -> Self { Pair { a: ::ownable::traits::ToBorrowed::to_borrowed(&self.a), b: ::ownable::traits::ToBorrowed::to_borrowed(&self.b) } } } impl<'o> Pair<'o> { #[doc = \" Copy the structure and reference the original values.\\n\\nThis is always a deep copy of the structure.\"] #[inline(always)] pub fn to_borrowed(&self) -> Pair<'_> { ::ownable::traits::ToBorrowed::to_borrowed(self) } }");
}

#[test]
fn pair_to_owned_text() {
    assert_eq!(ownable::to_owned(&pair_input()).unwrap(), "impl ::ownable::traits::ToOwned for Pair<'_> { type Owned = Pair<'static>; fn to_owned(&self) -> Self::Owned { Pair { a: ::ownable::traits::ToOwned::to_owned(&self.a), b: ::ownable::traits::ToOwned::to_owned(&self.b) } } } impl Pair<'_> { #[doc = \" Copy the structure and clone the original values.\\n\\nThis is always a deep copy.\"] #[inline(always)] pub fn to_owned(&self) -> Pair<'static> { ::ownable::traits::ToOwned::to_owned(self) } }");
}

#[test]
fn pair_into_owned_text() {
    assert_eq!(ownable::into_owned(&pair_input()).unwrap(), "impl ::ownable::traits::IntoOwned for Pair<'_> { type Owned = Pair<'static>; fn into_owned(self) -> Self::Owned { Pair { a: ::ownable::traits::IntoOwned::into_owned(self.a), b: ::ownable::traits::IntoOwned::into_owned(self.b) } } } impl Pair<'_> { #[doc = \" Copy the structure and clone the original values if it's not owned.\\n\\nThis is always a deep copy of the structure.\"] #[inline(always)] pub fn into_owned(self) -> Pair<'static> { ::ownable::traits::IntoOwned::into_owned(self) } }");
}

#[test]
fn ref_to_borrowed_text() {
    assert_eq!(ownable::to_borrowed(&ref_input()).unwrap(), "impl<'o, 'b> ::ownable::traits::ToBorrowed<'o> for Ref<'o, 'b> { fn to_borrowed(&'o self) -> Self { Ref { r: self.r } } } impl<'o, 'b> Ref<'o, 'b> { #[doc = \" Copy the structure and reference the original values.\\n\\nThis is always a deep copy of the structure.\"] #[inline(always)] pub fn to_borrowed(&self) -> Ref<'_, 'b> { ::ownable::traits::ToBorrowed::to_borrowed(self) } }");
}

#[test]
fn ref_to_owned_text() {
    assert_eq!(ownable::to_owned(&ref_input()).unwrap(), "impl<'b> ::ownable::traits::ToOwned for Ref<'_, 'b> { type Owned = Ref<'static, 'b>; fn to_owned(&self) -> Self::Owned { Ref { r: self.r } } } impl<'b> Ref<'_, 'b> { #[doc = \" Copy the structure and clone the original values.\\n\\nThis is always a deep copy.\"] #[inline(always)] pub fn to_owned(&self) -> Ref<'static, 'b> { ::ownable::traits::ToOwned::to_owned(self) } }");
}

#[test]
fn ref_into_owned_text() {
    assert_eq!(ownable::into_owned(&ref_input()).unwrap(), "impl<'b> ::ownable::traits::IntoOwned for Ref<'_, 'b> { type Owned = Ref<'static, 'b>; fn into_owned(self) -> Self::Owned { Ref { r: self.r } } } impl<'b> Ref<'_, 'b> { #[doc = \" Copy the structure and clone the original values if it's not owned.\\n\\nThis is always a deep copy of the structure.\"] #[inline(always)] pub fn into_owned(self) -> Ref<'static, 'b> { ::ownable::traits::IntoOwned::into_owned(self) } }");
}

#[test]
fn link_keeps_the_reference_itself() {
    let target = "target".to_string();
    let text = "text".to_string();
    let v = Link { cow: Cow::Borrowed(text.as_str()), referenced: target.as_str() };
    let view = v.to_borrowed();
    assert!(std::ptr::eq(view.referenced, target.as_str()));
    let copied: Link<'static, '_> = v.to_owned();
    assert!(std::ptr::eq(copied.referenced, target.as_str()));
    let consumed: Link<'static, '_> = v.into_owned();
    assert!(std::ptr::eq(consumed.referenced, target.as_str()));
    assert_eq!(consumed, copied);
}

#[test]
fn link_to_borrowed_text() {
    assert_eq!(ownable::to_borrowed(&link_input()).unwrap(), "impl<'o, 'b> ::ownable::traits::ToBorrowed<'o> for Link<'o, 'b> { fn to_borrowed(&'o self) -> Self { Link { cow: ::ownable::traits::ToBorrowed::to_borrowed(&self.cow), referenced: self.referenced } } } impl<'o, 'b> Link<'o, 'b> { #[doc = \" Copy the structure and reference the original values.\\n\\nThis is always a deep copy of the structure.\"] #[inline(always)] pub fn to_borrowed(&self) -> Link<'_, 'b> { ::ownable::traits::ToBorrowed::to_borrowed(self) } }");
}

#[test]
fn link_to_owned_text() {
    assert_eq!(ownable::to_owned(&link_input()).unwrap(), "impl<'b> ::ownable::traits::ToOwned for Link<'_, 'b> { type Owned = Link<'static, 'b>; fn to_owned(&self) -> Self::Owned { Link { cow: ::ownable::traits::ToOwned::to_owned(&self.cow), referenced: self.referenced } } } impl<'b> Link<'_, 'b> { #[doc = \" Copy the structure and clone the original values.\\n\\nThis is always a deep copy.\"] #[inline(always)] pub fn to_owned(&self) -> Link<'static, 'b> { ::ownable::traits::ToOwned::to_owned(self) } }");
}

#[test]
fn link_into_owned_text() {
    assert_eq!(ownable::into_owned(&link_input()).unwrap(), "impl<'b> ::ownable::traits::IntoOwned for Link<'_, 'b> { type Owned = Link<'static, 'b>; fn into_owned(self) -> Self::Owned { Link { cow: ::ownable::traits::IntoOwned::into_owned(self.cow), referenced: self.referenced } } } impl<'b> Link<'_, 'b> { #[doc = \" Copy the structure and clone the original values if it's not owned.\\n\\nThis is always a deep copy of the structure.\"] #[inline(always)] pub fn into_owned(self) -> Link<'static, 'b> { ::ownable::traits::IntoOwned::into_owned(self) } }");
}

#[test]
fn outer_recurses_through_option_and_box() {
    let text = "nested".to_string();
    let v = Outer { inner: Some(Box::new(Inner { value: Cow::Borrowed(text.as_str()) })) };
    let view = v.to_borrowed();
    assert_eq!(view, v);
    let copied: Outer<'static> = v.to_owned();
    match &copied.inner {
        Some(inner) => assert!(matches!(inner.value, Cow::Owned(_))),
        None => panic!("the inner value must stay"),
    }
    let consumed: Outer<'static> = v.into_owned();
    assert_eq!(consumed, copied);
    let empty = Outer { inner: None };
    assert_eq!(empty.to_owned(), Outer { inner: None });
}

#[test]
fn inner_to_borrowed_text() {
    assert_eq!(ownable::to_borrowed(&inner_input()).unwrap(), "impl<'o> ::ownable::traits::ToBorrowed<'o> for Inner<'o> { fn to_borrowed(&'o self) -> Self { Inner { value: ::ownable::traits::ToBorrowed::to_borrowed(&self.value) } } } impl<'o> Inner<'o> { #[doc = \" Copy the structure and reference the original values.\\n\\nThis is always a deep copy of the structure.\"] #[inline(always)] pub fn to_borrowed(&self) -> Inner<'_> { ::ownable::traits::ToBorrowed::to_borrowed(self) } }");
}

#[test]
fn inner_to_owned_text() {
    assert_eq!(ownable::to_owned(&inner_input()).unwrap(), "impl ::ownable::traits::ToOwned for Inner<'_> { type Owned = Inner<'static>; fn to_owned(&self) -> Self::Owned { Inner { value: ::ownable::traits::ToOwned::to_owned(&self.value) } } } impl Inner<'_> { #[doc = \" Copy the structure and clone the original values.\\n\\nThis is always a deep copy.\"] #[inline(always)] pub fn to_owned(&self) -> Inner<'static> { ::ownable::traits::ToOwned::to_owned(self) } }");
}

#[test]
fn inner_into_owned_text() {
    assert_eq!(ownable::into_owned(&inner_input()).unwrap(), "impl ::ownable::traits::IntoOwned for Inner<'_> { type Owned = Inner<'static>; fn into_owned(self) -> Self::Owned { Inner { value: ::ownable::traits::IntoOwned::into_owned(self.value) } } } impl Inner<'_> { #[doc = \" Copy the structure and clone the original values if it's not owned.\\n\\nThis is always a deep copy of the structure.\"] #[inline(always)] pub fn into_owned(self) -> Inner<'static> { ::ownable::traits::IntoOwned::into_owned(self) } }");
}

#[test]
fn outer_to_borrowed_text() {
    assert_eq!(ownable::to_borrowed(&outer_input()).unwrap(), "impl<'o> ::ownable::traits::ToBorrowed<'o> for Outer<'o> { fn to_borrowed(&'o self) -> Self { Outer { inner: ::ownable::traits::ToBorrowed::to_borrowed(&self.inner) } } } impl<'o> Outer<'o> { #[doc = \" Copy the structure and reference the original values.\\n\\nThis is always a deep copy of the structure.\"] #[inline(always)] pub fn to_borrowed(&self) -> Outer<'_> { ::ownable::traits::ToBorrowed::to_borrowed(self) } }");
}

#[test]
fn outer_to_owned_text() {
    assert_eq!(ownable::to_owned(&outer_input()).unwrap(), "impl ::ownable::traits::ToOwned for Outer<'_> { type Owned = Outer<'static>; fn to_owned(&self) -> Self::Owned { Outer { inner: ::ownable::traits::ToOwned::to_owned(&self.inner) } } } impl Outer<'_> { #[doc = \" Copy the structure and clone the original values.\\n\\nThis is always a deep copy.\"] #[inline(always)] pub fn to_owned(&self) -> Outer<'static> { ::ownable::traits::ToOwned::to_owned(self) } }");
}

#[test]
fn outer_into_owned_text() {
    assert_eq!(ownable::into_owned(&outer_input()).unwrap(), "impl ::ownable::traits::IntoOwned for Outer<'_> { type Owned = Outer<'static>; fn into_owned(self) -> Self::Owned { Outer { inner: ::ownable::traits::IntoOwned::into_owned(self.inner) } } } impl Outer<'_> { #[doc = \" Copy the structure and clone the original values if it's not owned.\\n\\nThis is always a deep copy of the structure.\"] #[inline(always)] pub fn into_owned(self) -> Outer<'static> { ::ownable::traits::IntoOwned::into_owned(self) } }");
}

#[test]
fn shape_unit_variant() {
    let v = Shape::Unit;
    assert_eq!(v.to_borrowed(), Shape::Unit);
    assert_eq!(v.to_owned(), Shape::Unit);
    assert_eq!(v.into_owned(), Shape::Unit);
}

#[test]
fn shape_named_variant() {
    let text = "name".to_string();
    let v = Shape::Named { name: Cow::Borrowed(text.as_str()), size: 3 };
    assert_eq!(v.to_borrowed(), v);
    let copied: Shape<'static> = v.to_owned();
    match &copied {
        Shape::Named { name, size } => {
            assert!(matches!(name, Cow::Owned(_)));
            assert_eq!(name, "name");
            assert_eq!(*size, 3);
        }
        _ => panic!("the variant must stay"),
    }
    assert_eq!(v.into_owned(), copied);
}

#[test]
fn shape_positional_variant() {
    let text = "first".to_string();
    let v = Shape::Positional(Cow::Borrowed(text.as_str()), 9);
    assert_eq!(v.to_borrowed(), v);
    let copied: Shape<'static> = v.to_owned();
    match &copied {
        Shape::Positional(first, second) => {
            assert!(matches!(first, Cow::Owned(_)));
            assert_eq!(first, "first");
            assert_eq!(*second, 9);
        }
        _ => panic!("the variant must stay"),
    }
    assert_eq!(v.into_owned(), copied);
}

#[test]
fn shape_to_borrowed_text() {
    assert_eq!(ownable::to_borrowed(&shape_input()).unwrap(), "impl<'o> ::ownable::traits::ToBorrowed<'o> for Shape<'o> { fn to_borrowed(&'o self) -> Self { match self { Shape::Unit => Shape::Unit, Shape::Named { name, size } => Shape::Named { name: ::ownable::traits::ToBorrowed::to_borrowed(name), size: ::ownable::traits::ToBorrowed::to_borrowed(size) }, Shape::Positional(arg0, arg1) => Shape::Positional(::ownable::traits::ToBorrowed::to_borrowed(arg0), ::ownable::traits::ToBorrowed::to_borrowed(arg1)) } } } impl<'o> Shape<'o> { #[doc = \" Copy the structure and reference the original values.\\n\\nThis is always a deep copy of the structure.\"] #[inline(always)] pub fn to_borrowed(&self) -> Shape<'_> { ::ownable::traits::ToBorrowed::to_borrowed(self) } }");
}

#[test]
fn shape_to_owned_text() {
    assert_eq!(ownable::to_owned(&shape_input()).unwrap(), "impl ::ownable::traits::ToOwned for Shape<'_> { type Owned = Shape<'static>; fn to_owned(&self) -> Self::Owned { match self { Shape::Unit => Shape::Unit, Shape::Named { name, size } => Shape::Named { name: ::ownable::traits::ToOwned::to_owned(name), size: ::ownable::traits::ToOwned::to_owned(size) }, Shape::Positional(arg0, arg1) => Shape::Positional(::ownable::traits::ToOwned::to_owned(arg0), ::ownable::traits::ToOwned::to_owned(arg1)) } } } impl Shape<'_> { #[doc = \" Copy the structure and clone the original values.\\n\\nThis is always a deep copy.\"] #[inline(always)] pub fn to_owned(&self) -> Shape<'static> { ::ownable::traits::ToOwned::to_owned(self) } }");
}

#[test]
fn shape_into_owned_text() {
    assert_eq!(ownable::into_owned(&shape_input()).unwrap(), "impl ::ownable::traits::IntoOwned for Shape<'_> { type Owned = Shape<'static>; fn into_owned(self) -> Self::Owned { match self { Shape::Unit => Shape::Unit, Shape::Named { name, size } => Shape::Named { name: ::ownable::traits::IntoOwned::into_owned(name), size: ::ownable::traits::IntoOwned::into_owned(size) }, Shape::Positional(arg0, arg1) => Shape::Positional(::ownable::traits::IntoOwned::into_owned(arg0), ::ownable::traits::IntoOwned::into_owned(arg1)) } } } impl Shape<'_> { #[doc = \" Copy the structure and clone the original values if it's not owned.\\n\\nThis is always a deep copy of the structure.\"] #[inline(always)] pub fn into_owned(self) -> Shape<'static> { ::ownable::traits::IntoOwned::into_owned(self) } }");
}

#[test]
fn forced_clone_in_every_operation() {
    let text = "cow".to_string();
    let v = Forced { cow: Cow::Borrowed(text.as_str()), owned: "cloned".to_string() };
    assert_eq!(v.to_borrowed().owned, "cloned");
    assert_eq!(v.to_owned().owned, "cloned");
    let held = v.owned.as_ptr();
    let consumed = v.into_owned();
    assert_eq!(consumed.owned, "cloned");
    // a clone is a new allocation, the field was not moved
    assert!(consumed.owned.as_ptr() != held);
}

#[test]
fn forced_to_borrowed_text() {
    assert_eq!(ownable::to_borrowed(&forced_input()).unwrap(), "impl<'o> ::ownable::traits::ToBorrowed<'o> for Forced<'o> { fn to_borrowed(&'o self) -> Self { Forced { cow: ::ownable::traits::ToBorrowed::to_borrowed(&self.cow), owned: ::core::clone::Clone::clone(&self.owned) } } } impl<'o> Forced<'o> { #[doc = \" Copy the structure and reference the original values.\\n\\nThis is always a deep copy of the structure.\"] #[inline(always)] pub fn to_borrowed(&self) -> Forced<'_> { ::ownable::traits::ToBorrowed::to_borrowed(self) } }");
}

#[test]
fn forced_to_owned_text() {
    assert_eq!(ownable::to_owned(&forced_input()).unwrap(), "impl ::ownable::traits::ToOwned for Forced<'_> { type Owned = Forced<'static>; fn to_owned(&self) -> Self::Owned { Forced { cow: ::ownable::traits::ToOwned::to_owned(&self.cow), owned: ::core::clone::Clone::clone(&self.owned) } } } impl Forced<'_> { #[doc = \" Copy the structure and clone the original values.\\n\\nThis is always a deep copy.\"] #[inline(always)] pub fn to_owned(&self) -> Forced<'static> { ::ownable::traits::ToOwned::to_owned(self) } }");
}

#[test]
fn forced_into_owned_text() {
    assert_eq!(ownable::into_owned(&forced_input()).unwrap(), "impl ::ownable::traits::IntoOwned for Forced<'_> { type Owned = Forced<'static>; fn into_owned(self) -> Self::Owned { Forced { cow: ::ownable::traits::IntoOwned::into_owned(self.cow), owned: ::core::clone::Clone::clone(&self.owned) } } } impl Forced<'_> { #[doc = \" Copy the structure and clone the original values if it's not owned.\\n\\nThis is always a deep copy of the structure.\"] #[inline(always)] pub fn into_owned(self) -> Forced<'static> { ::ownable::traits::IntoOwned::into_owned(self) } }");
}

#[test]
fn mixed_only_the_overriding_field_is_converted() {
    let text = "second".to_string();
    let v = Mixed {
        first: "first".to_string(),
        second: Cow::Borrowed(text.as_str()),
        third: "third".to_string(),
    };
    let copied: Mixed<'static> = v.to_owned();
    assert!(matches!(copied.second, Cow::Owned(_)));
    assert_eq!(copied.first, "first");
    assert_eq!(copied.third, "third");
    assert_eq!(v.to_borrowed(), v);
    assert_eq!(v.into_owned(), copied);
}

#[test]
fn mixed_to_borrowed_text() {
    assert_eq!(ownable::to_borrowed(&mixed_input()).unwrap(), "impl<'o> ::ownable::traits::ToBorrowed<'o> for Mixed<'o> { fn to_borrowed(&'o self) -> Self { Mixed { first: ::core::clone::Clone::clone(&self.first), second: ::ownable::traits::ToBorrowed::to_borrowed(&self.second), third: ::core::clone::Clone::clone(&self.third) } } } impl<'o> Mixed<'o> { #[doc = \" Copy the structure and reference the original values.\\n\\nThis is always a deep copy of the structure.\"] #[inline(always)] pub fn to_borrowed(&self) -> Mixed<'_> { ::ownable::traits::ToBorrowed::to_borrowed(self) } }");
}

#[test]
fn mixed_to_owned_text() {
    assert_eq!(ownable::to_owned(&mixed_input()).unwrap(), "impl ::ownable::traits::ToOwned for Mixed<'_> { type Owned = Mixed<'static>; fn to_owned(&self) -> Self::Owned { Mixed { first: ::core::clone::Clone::clone(&self.first), second: ::ownable::traits::ToOwned::to_owned(&self.second), third: ::core::clone::Clone::clone(&self.third) } } } impl Mixed<'_> { #[doc = \" Copy the structure and clone the original values.\\n\\nThis is always a deep copy.\"] #[inline(always)] pub fn to_owned(&self) -> Mixed<'static> { ::ownable::traits::ToOwned::to_owned(self) } }");
}

#[test]
fn mixed_into_owned_text() {
    assert_eq!(ownable::into_owned(&mixed_input()).unwrap(), "impl ::ownable::traits::IntoOwned for Mixed<'_> { type Owned = Mixed<'static>; fn into_owned(self) -> Self::Owned { Mixed { first: ::core::clone::Clone::clone(&self.first), second: ::ownable::traits::IntoOwned::into_owned(self.second), third: ::core::clone::Clone::clone(&self.third) } } } impl Mixed<'_> { #[doc = \" Copy the structure and clone the original values if it's not owned.\\n\\nThis is always a deep copy of the structure.\"] #[inline(always)] pub fn into_owned(self) -> Mixed<'static> { ::ownable::traits::IntoOwned::into_owned(self) } }");
}

#[test]
fn multi_keeps_both_references() {
    let first = "first".to_string();
    let second = "second".to_string();
    let third = "third".to_string();
    let v = Multi(first.as_str(), second.as_str(), Cow::Borrowed(third.as_str()));
    let view = v.to_borrowed();
    assert!(std::ptr::eq(view.0, first.as_str()) && std::ptr::eq(view.1, second.as_str()));
    let copied: Multi<'static, '_, '_> = v.to_owned();
    assert!(std::ptr::eq(copied.0, first.as_str()) && std::ptr::eq(copied.1, second.as_str()));
    assert!(matches!(copied.2, Cow::Owned(_)));
    let consumed: Multi<'static, '_, '_> = v.into_owned();
    assert_eq!(consumed, copied);
}

#[test]
fn multi_to_borrowed_text() {
    assert_eq!(ownable::to_borrowed(&multi_input()).unwrap(), "impl<'o, 'b, 'c> ::ownable::traits::ToBorrowed<'o> for Multi<'o, 'b, 'c> { fn to_borrowed(&'o self) -> Self { Multi(self.0, self.1, ::ownable::traits::ToBorrowed::to_borrowed(&self.2)) } } impl<'o, 'b, 'c> Multi<'o, 'b, 'c> { #[doc = \" Copy the structure and reference the original values.\\n\\nThis is always a deep copy of the structure.\"] #[inline(always)] pub fn to_borrowed(&self) -> Multi<'_, 'b, 'c> { ::ownable::traits::ToBorrowed::to_borrowed(self) } }");
}

#[test]
fn multi_to_owned_text() {
    assert_eq!(ownable::to_owned(&multi_input()).unwrap(), "impl<'b, 'c> ::ownable::traits::ToOwned for Multi<'_, 'b, 'c> { type Owned = Multi<'static, 'b, 'c>; fn to_owned(&self) -> Self::Owned { Multi(self.0, self.1, ::ownable::traits::ToOwned::to_owned(&self.2)) } } impl<'b, 'c> Multi<'_, 'b, 'c> { #[doc = \" Copy the structure and clone the original values.\\n\\nThis is always a deep copy.\"] #[inline(always)] pub fn to_owned(&self) -> Multi<'static, 'b, 'c> { ::ownable::traits::ToOwned::to_owned(self) } }");
}

#[test]
fn multi_into_owned_text() {
    assert_eq!(ownable::into_owned(&multi_input()).unwrap(), "impl<'b, 'c> ::ownable::traits::IntoOwned for Multi<'_, 'b, 'c> { type Owned = Multi<'static, 'b, 'c>; fn into_owned(self) -> Self::Owned { Multi(self.0, self.1, ::ownable::traits::IntoOwned::into_owned(self.2)) } } impl<'b, 'c> Multi<'_, 'b, 'c> { #[doc = \" Copy the structure and clone the original values if it's not owned.\\n\\nThis is always a deep copy of the structure.\"] #[inline(always)] pub fn into_owned(self) -> Multi<'static, 'b, 'c> { ::ownable::traits::IntoOwned::into_owned(self) } }");
}

#[test]
fn hollow_variants_without_fields() {
    assert_eq!(Hollow::Braces {}.to_owned(), Hollow::Braces {});
    assert_eq!(Hollow::Parens().to_borrowed(), Hollow::Parens());
    assert_eq!(Hollow::Parens().into_owned(), Hollow::Parens());
    let text = "full".to_string();
    let v = Hollow::Full(Cow::Borrowed(text.as_str()));
    assert_eq!(v.to_owned(), Hollow::Full(Cow::Owned("full".to_string())));
}

#[test]
fn hollow_to_borrowed_text() {
    assert_eq!(ownable::to_borrowed(&hollow_input()).unwrap(), "impl<'o> ::ownable::traits::ToBorrowed<'o> for Hollow<'o> { fn to_borrowed(&'o self) -> Self { match self { Hollow::Braces {  } => Hollow::Braces {  }, Hollow::Parens() => Hollow::Parens(), Hollow::Full(arg0) => Hollow::Full(::ownable::traits::ToBorrowed::to_borrowed(arg0)) } } } impl<'o> Hollow<'o> { #[doc = \" Copy the structure and reference the original values.\\n\\nThis is always a deep copy of the structure.\"] #[inline(always)] pub fn to_borrowed(&self) -> Hollow<'_> { ::ownable::traits::ToBorrowed::to_borrowed(self) } }");
}

#[test]
fn hollow_to_owned_text() {
    assert_eq!(ownable::to_owned(&hollow_input()).unwrap(), "impl ::ownable::traits::ToOwned for Hollow<'_> { type Owned = Hollow<'static>; fn to_owned(&self) -> Self::Owned { match self { Hollow::Braces {  } => Hollow::Braces {  }, Hollow::Parens() => Hollow::Parens(), Hollow::Full(arg0) => Hollow::Full(::ownable::traits::ToOwned::to_owned(arg0)) } } } impl Hollow<'_> { #[doc = \" Copy the structure and clone the original values.\\n\\nThis is always a deep copy.\"] #[inline(always)] pub fn to_owned(&self) -> Hollow<'static> { ::ownable::traits::ToOwned::to_owned(self) } }");
}

#[test]
fn hollow_into_owned_text() {
    assert_eq!(ownable::into_owned(&hollow_input()).unwrap(), "impl ::ownable::traits::IntoOwned for Hollow<'_> { type Owned = Hollow<'static>; fn into_owned(self) -> Self::Owned { match self { Hollow::Braces {  } => Hollow::Braces {  }, Hollow::Parens() => Hollow::Parens(), Hollow::Full(arg0) => Hollow::Full(::ownable::traits::IntoOwned::into_owned(arg0)) } } } impl Hollow<'_> { #[doc = \" Copy the structure and clone the original values if it's not owned.\\n\\nThis is always a deep copy of the structure.\"] #[inline(always)] pub fn into_owned(self) -> Hollow<'static> { ::ownable::traits::IntoOwned::into_owned(self) } }");
}

#[test]
fn marker_without_fields_and_lifetimes() {
    assert_eq!(Marker.to_owned(), Marker);
    assert_eq!(Marker.into_owned(), Marker);
    assert!(ownable::to_borrowed(&marker_input()).is_err());
}

#[test]
fn marker_to_owned_text() {
    assert_eq!(ownable::to_owned(&marker_input()).unwrap(), "impl ::ownable::traits::ToOwned for Marker { type Owned = Marker; fn to_owned(&self) -> Self::Owned { Marker } } impl Marker { #[doc = \" Copy the structure and clone the original values.\\n\\nThis is always a deep copy.\"] #[inline(always)] pub fn to_owned(&self) -> Marker { ::ownable::traits::ToOwned::to_owned(self) } }");
}

#[test]
fn marker_into_owned_text() {
    assert_eq!(ownable::into_owned(&marker_input()).unwrap(), "impl ::ownable::traits::IntoOwned for Marker { type Owned = Marker; fn into_owned(self) -> Self::Owned { Marker } } impl Marker { #[doc = \" Copy the structure and clone the original values if it's not owned.\\n\\nThis is always a deep copy of the structure.\"] #[inline(always)] pub fn into_owned(self) -> Marker { ::ownable::traits::IntoOwned::into_owned(self) } }");
}

#[test]
fn nested_parameter_is_converted_inside_the_list() {
    let text = "text".to_string();
    let v = Nested { text: Cow::Borrowed(text.as_str()), items: vec![Some(1u8), None] };
    assert_eq!(v.to_borrowed(), v);
    let copied: Nested<'static, Option<u8>> = v.to_owned();
    assert_eq!(copied.items, vec![Some(1), None]);
    assert_eq!(v.into_owned(), copied);
}

#[test]
fn nested_to_borrowed_text() {
    assert_eq!(ownable::to_borrowed(&nested_input()).unwrap(), "impl<'o, T> ::ownable::traits::ToBorrowed<'o> for Nested<'o, T> where T: ::ownable::traits::ToBorrowed<'o> { fn to_borrowed(&'o self) -> Self { Nested { text: ::ownable::traits::ToBorrowed::to_borrowed(&self.text), items: ::ownable::traits::ToBorrowed::to_borrowed(&self.items) } } } impl<'o, T> Nested<'o, T> where T: ::ownable::traits::ToBorrowed<'o> { #[doc = \" Copy the structure and reference the original values.\\n\\nThis is always a deep copy of the structure.\"] #[inline(always)] pub fn to_borrowed(&'o self) -> Nested<'o, T> { ::ownable::traits::ToBorrowed::to_borrowed(self) } }");
}

#[test]
fn nested_to_owned_text() {
    assert_eq!(ownable::to_owned(&nested_input()).unwrap(), "impl<T> ::ownable::traits::ToOwned for Nested<'_, T> where T: ::ownable::traits::ToOwned<Owned = T> { type Owned = Nested<'static, T>; fn to_owned(&self) -> Self::Owned { Nested { text: ::ownable::traits::ToOwned::to_owned(&self.text), items: ::ownable::traits::ToOwned::to_owned(&self.items) } } } impl<T> Nested<'_, T> where T: ::ownable::traits::ToOwned<Owned = T> { #[doc = \" Copy the structure and clone the original values.\\n\\nThis is always a deep copy.\"] #[inline(always)] pub fn to_owned(&self) -> Nested<'static, T> { ::ownable::traits::ToOwned::to_owned(self) } }");
}

#[test]
fn nested_into_owned_text() {
    assert_eq!(ownable::into_owned(&nested_input()).unwrap(), "impl<T> ::ownable::traits::IntoOwned for Nested<'_, T> where T: ::ownable::traits::IntoOwned<Owned = T> { type Owned = Nested<'static, T>; fn into_owned(self) -> Self::Owned { Nested { text: ::ownable::traits::IntoOwned::into_owned(self.text), items: ::ownable::traits::IntoOwned::into_owned(self.items) } } } impl<T> Nested<'_, T> where T: ::ownable::traits::IntoOwned<Owned = T> { #[doc = \" Copy the structure and clone the original values if it's not owned.\\n\\nThis is always a deep copy of the structure.\"] #[inline(always)] pub fn into_owned(self) -> Nested<'static, T> { ::ownable::traits::IntoOwned::into_owned(self) } }");
}

#[test]
fn taken_lifetime_is_not_picked_again() {
    let text = "text".to_string();
    let v = Taken { text: Cow::Borrowed(text.as_str()) };
    assert_eq!(v.to_borrowed(), v);
    assert!(ownable::to_borrowed(&taken_input()).unwrap().starts_with("impl<'ow> "));
}

#[test]
fn taken_to_borrowed_text() {
    assert_eq!(ownable::to_borrowed(&taken_input()).unwrap(), "impl<'ow> ::ownable::traits::ToBorrowed<'ow> for Taken<'ow> { fn to_borrowed(&'ow self) -> Self { Taken { text: ::ownable::traits::ToBorrowed::to_borrowed(&self.text) } } } impl<'ow> Taken<'ow> { #[doc = \" Copy the structure and reference the original values.\\n\\nThis is always a deep copy of the structure.\"] #[inline(always)] pub fn to_borrowed(&self) -> Taken<'_> { ::ownable::traits::ToBorrowed::to_borrowed(self) } }");
}

#[test]
fn taken_to_owned_text() {
    assert_eq!(ownable::to_owned(&taken_input()).unwrap(), "impl ::ownable::traits::ToOwned for Taken<'_> { type Owned = Taken<'static>; fn to_owned(&self) -> Self::Owned { Taken { text: ::ownable::traits::ToOwned::to_owned(&self.text) } } } impl Taken<'_> { #[doc = \" Copy the structure and clone the original values.\\n\\nThis is always a deep copy.\"] #[inline(always)] pub fn to_owned(&self) -> Taken<'static> { ::ownable::traits::ToOwned::to_owned(self) } }");
}

#[test]
fn taken_into_owned_text() {
    assert_eq!(ownable::into_owned(&taken_input()).unwrap(), "impl ::ownable::traits::IntoOwned for Taken<'_> { type Owned = Taken<'static>; fn into_owned(self) -> Self::Owned { Taken { text: ::ownable::traits::IntoOwned::into_owned(self.text) } } } impl Taken<'_> { #[doc = \" Copy the structure and clone the original values if it's not owned.\\n\\nThis is always a deep copy of the structure.\"] #[inline(always)] pub fn into_owned(self) -> Taken<'static> { ::ownable::traits::IntoOwned::into_owned(self) } }");
}

#[test]
fn chain_bound_on_a_rewritten_lifetime_is_rewritten() {
    let text = "text".to_string();
    let v: Chain<'_, 'static> = Chain { text: Cow::Borrowed(text.as_str()), link: "link" };
    assert_eq!(v.to_borrowed(), v);
    let copied: Chain<'static, 'static> = v.to_owned();
    assert!(std::ptr::eq(copied.link, v.link));
    assert_eq!(v.into_owned(), copied);
}

#[test]
fn chain_to_borrowed_text() {
    assert_eq!(ownable::to_borrowed(&chain_input()).unwrap(), "impl<'o, 'b> ::ownable::traits::ToBorrowed<'o> for Chain<'o, 'b> where 'b: 'o { fn to_borrowed(&'o self) -> Self { Chain { text: ::ownable::traits::ToBorrowed::to_borrowed(&self.text), link: self.link } } } impl<'o, 'b> Chain<'o, 'b> where 'b: 'o { #[doc = \" Copy the structure and reference the original values.\\n\\nThis is always a deep copy of the structure.\"] #[inline(always)] pub fn to_borrowed(&self) -> Chain<'_, 'b> { ::ownable::traits::ToBorrowed::to_borrowed(self) } }");
}

#[test]
fn chain_to_owned_text() {
    assert_eq!(ownable::to_owned(&chain_input()).unwrap(), "impl<'b> ::ownable::traits::ToOwned for Chain<'_, 'b> where 'b: 'static { type Owned = Chain<'static, 'b>; fn to_owned(&self) -> Self::Owned { Chain { text: ::ownable::traits::ToOwned::to_owned(&self.text), link: self.link } } } impl<'b> Chain<'_, 'b> where 'b: 'static { #[doc = \" Copy the structure and clone the original values.\\n\\nThis is always a deep copy.\"] #[inline(always)] pub fn to_owned(&self) -> Chain<'static, 'b> { ::ownable::traits::ToOwned::to_owned(self) } }");
}

#[test]
fn chain_into_owned_text() {
    assert_eq!(ownable::into_owned(&chain_input()).unwrap(), "impl<'b> ::ownable::traits::IntoOwned for Chain<'_, 'b> where 'b: 'static { type Owned = Chain<'static, 'b>; fn into_owned(self) -> Self::Owned { Chain { text: ::ownable::traits::IntoOwned::into_owned(self.text), link: self.link } } } impl<'b> Chain<'_, 'b> where 'b: 'static { #[doc = \" Copy the structure and clone the original values if it's not owned.\\n\\nThis is always a deep copy of the structure.\"] #[inline(always)] pub fn into_owned(self) -> Chain<'static, 'b> { ::ownable::traits::IntoOwned::into_owned(self) } }");
}

#[test]
fn wrapper_converts_a_value_of_its_parameter() {
    let text = "text".to_string();
    let v = Wrapper { text: Cow::Borrowed(text.as_str()), value: Some(5u8), other: vec![7u16] };
    assert_eq!(v.to_borrowed(), v);
    let copied: Wrapper<'static, Option<u8>, Vec<u16>> = v.to_owned();
    assert_eq!(copied.value, Some(5));
    assert_eq!(copied.other, vec![7]);
    assert!(matches!(copied.text, Cow::Owned(_)));
    assert_eq!(v.into_owned(), copied);
}

#[test]
fn wrapper_to_borrowed_text() {
    assert_eq!(ownable::to_borrowed(&wrapper_input()).unwrap(), "impl<'o, T, U> ::ownable::traits::ToBorrowed<'o> for Wrapper<'o, T, U> where T: ::ownable::traits::ToBorrowed<'o>, U: Clone + ::ownable::traits::ToBorrowed<'o> { fn to_borrowed(&'o self) -> Self { Wrapper { text: ::ownable::traits::ToBorrowed::to_borrowed(&self.text), value: ::ownable::traits::ToBorrowed::to_borrowed(&self.value), other: ::core::clone::Clone::clone(&self.other) } } } impl<'o, T, U> Wrapper<'o, T, U> where T: ::ownable::traits::ToBorrowed<'o>, U: Clone + ::ownable::traits::ToBorrowed<'o> { #[doc = \" Copy the structure and reference the original values.\\n\\nThis is always a deep copy of the structure.\"] #[inline(always)] pub fn to_borrowed(&'o self) -> Wrapper<'o, T, U> { ::ownable::traits::ToBorrowed::to_borrowed(self) } }");
}

#[test]
fn wrapper_to_owned_text() {
    assert_eq!(ownable::to_owned(&wrapper_input()).unwrap(), "impl<T, U> ::ownable::traits::ToOwned for Wrapper<'_, T, U> where T: ::ownable::traits::ToOwned<Owned = T>, U: Clone + ::ownable::traits::ToOwned<Owned = U> { type Owned = Wrapper<'static, T, U>; fn to_owned(&self) -> Self::Owned { Wrapper { text: ::ownable::traits::ToOwned::to_owned(&self.text), value: ::ownable::traits::ToOwned::to_owned(&self.value), other: ::core::clone::Clone::clone(&self.other) } } } impl<T, U> Wrapper<'_, T, U> where T: ::ownable::traits::ToOwned<Owned = T>, U: Clone + ::ownable::traits::ToOwned<Owned = U> { #[doc = \" Copy the structure and clone the original values.\\n\\nThis is always a deep copy.\"] #[inline(always)] pub fn to_owned(&self) -> Wrapper<'static, T, U> { ::ownable::traits::ToOwned::to_owned(self) } }");
}

#[test]
fn wrapper_into_owned_text() {
    assert_eq!(ownable::into_owned(&wrapper_input()).unwrap(), "impl<T, U> ::ownable::traits::IntoOwned for Wrapper<'_, T, U> where T: ::ownable::traits::IntoOwned<Owned = T>, U: Clone + ::ownable::traits::IntoOwned<Owned = U> { type Owned = Wrapper<'static, T, U>; fn into_owned(self) -> Self::Owned { Wrapper { text: ::ownable::traits::IntoOwned::into_owned(self.text), value: ::ownable::traits::IntoOwned::into_owned(self.value), other: ::core::clone::Clone::clone(&self.other) } } } impl<T, U> Wrapper<'_, T, U> where T: ::ownable::traits::IntoOwned<Owned = T>, U: Clone + ::ownable::traits::IntoOwned<Owned = U> { #[doc = \" Copy the structure and clone the original values if it's not owned.\\n\\nThis is always a deep copy of the structure.\"] #[inline(always)] pub fn into_owned(self) -> Wrapper<'static, T, U> { ::ownable::traits::IntoOwned::into_owned(self) } }");
}
