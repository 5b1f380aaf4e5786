//! The description of a type that the generator reads.
//!
//! These types hold, as plain values, what the generator needs to know of a
//! `struct`, `enum` or `union` item: its name, its generic parameters, its
//! fields and the attributes on each of them. Names are held without
//! decoration: a lifetime `'a` is the string `a`.

use vstd::prelude::*;

verus! {

/// A handle for a place in the input. The library only carries it from the
/// input to the diagnostics. Index 0 is the place of the derive itself.
#[derive(Clone, Copy, Debug, PartialEq, Eq, Structural)]
pub struct Span {
    pub index: usize,
}

impl Span {
    /// The place of the derive itself.
    pub open spec fn spec_call_site() -> Span {
        Span { index: 0 }
    }

    /// The place of the derive itself.
    #[verifier::when_used_as_spec(spec_call_site)]
    pub fn call_site() -> (span: Span)
        ensures
            span == Span::spec_call_site(),
    {
        Span { index: 0 }
    }
}

/// A path in an attribute. `ident` holds the path where it is one plain
/// identifier, and nothing otherwise.
#[derive(Debug, PartialEq, Eq)]
pub struct Path {
    pub ident: Option<String>,
    pub span: Span,
}

/// A literal on the right of `=` in an attribute.
#[derive(Debug, PartialEq, Eq)]
pub enum LitKind {
    Bool(bool),
    Str(String),
    /// Any other literal: a number, a character, a byte string.
    Other,
}

/// A literal with its place.
#[derive(Debug, PartialEq, Eq)]
pub struct Lit {
    pub kind: LitKind,
    pub span: Span,
}

impl Clone for Lit {
    fn clone(&self) -> (copy: Lit)
        ensures
            copy == *self,
    {
        let kind = match &self.kind {
            LitKind::Bool(b) => LitKind::Bool(*b),
            LitKind::Str(s) => LitKind::Str(s.clone()),
            LitKind::Other => LitKind::Other,
        };
        Lit { kind, span: self.span }
    }
}

/// One item of the list inside `#[ownable(...)]`.
#[derive(Debug, PartialEq, Eq)]
pub enum NestedMeta {
    /// A bare name, as in `clone`.
    Path { path: Path, span: Span },
    /// A name with a value, as in `clone = false`. `value` is empty where
    /// the right side is not a literal.
    NameValue { path: Path, value: Option<Lit>, span: Span },
    /// A name with a list of its own, as in `clone(...)`.
    List { path: Path, span: Span },
}

/// The three forms of an attribute.
#[derive(Debug, PartialEq, Eq)]
pub enum Meta {
    /// `#[ownable]`
    Path,
    /// `#[ownable(...)]`. Where what stands between the brackets is no
    /// comma separated list of items, `nested` holds the parser's message.
    List { nested: Result<Vec<NestedMeta>, String> },
    /// `#[ownable = ...]`
    NameValue,
}

/// One attribute: its path, its form, and its place.
#[derive(Debug, PartialEq, Eq)]
pub struct Attribute {
    pub path: Path,
    pub meta: Meta,
    pub span: Span,
}

/// A type expression: a reference, or a name applied to arguments.
#[derive(Debug, PartialEq, Eq)]
pub enum Type {
    /// `&'a T` or `&'a mut T`; the lifetime may be absent.
    Reference { lifetime: Option<String>, mutable: bool, elem: Box<Type>, span: Span },
    /// `name<arguments>`. Types that are no paths (tuples, arrays, slices)
    /// take part as a name of their own with their element types as
    /// arguments.
    Path { name: String, arguments: Vec<GenericArgument>, span: Span },
}

impl Type {
    /// The place of the type in the input.
    pub fn span(&self) -> (span: Span)
        ensures
            span == self@.span(),
    {
        match self {
            Type::Reference { span, .. } => *span,
            Type::Path { span, .. } => *span,
        }
    }
}

/// One argument of a type: a lifetime, a type or a constant.
#[derive(Debug, PartialEq, Eq)]
pub enum GenericArgument {
    Lifetime(String),
    Type(Type),
    /// A constant expression, held as its source text.
    Const(String),
}

/// A field: its attributes and its type.
#[derive(Debug, PartialEq, Eq)]
pub struct Field {
    pub attrs: Vec<Attribute>,
    pub ty: Type,
}

/// A field with its name.
#[derive(Debug, PartialEq, Eq)]
pub struct NamedField {
    pub ident: String,
    pub field: Field,
}

/// The fields of a struct or of a variant: named, positional, or none.
#[derive(Debug, PartialEq, Eq)]
pub enum Fields {
    Named(Vec<NamedField>),
    Unnamed(Vec<Field>),
    Unit,
}

/// One variant of an enum.
#[derive(Debug, PartialEq, Eq)]
pub struct Variant {
    pub attrs: Vec<Attribute>,
    pub ident: String,
    pub fields: Fields,
}

/// What kind of item a type is, with its fields or variants.
#[derive(Debug, PartialEq, Eq)]
pub enum Data {
    Struct(Fields),
    Enum(Vec<Variant>),
    Union,
}

/// `'a: 'b + 'c`
#[derive(Debug, PartialEq, Eq)]
pub struct LifetimeParam {
    pub lifetime: String,
    pub bounds: Vec<String>,
}

/// One bound of a type parameter or of a `where` predicate.
#[derive(Debug, PartialEq, Eq)]
pub enum TypeParamBound {
    Lifetime(String),
    /// A relaxed bound, as in `?Sized`; it holds the trait's source text.
    Maybe(String),
    /// Any other bound, held as its source text (`Iterator<Item = u8>`).
    Trait(String),
}

/// `T: A + 'b`
#[derive(Debug, PartialEq, Eq)]
pub struct TypeParam {
    pub ident: String,
    pub bounds: Vec<TypeParamBound>,
}

/// `const N: usize`; the type is held as its source text.
#[derive(Debug, PartialEq, Eq)]
pub struct ConstParam {
    pub ident: String,
    pub ty: String,
}

/// One generic parameter: a lifetime, a type or a constant.
#[derive(Debug, PartialEq, Eq)]
pub enum GenericParam {
    Lifetime(LifetimeParam),
    Type(TypeParam),
    Const(ConstParam),
}

/// One predicate of a `where` clause.
#[derive(Debug, PartialEq, Eq)]
pub enum WherePredicate {
    /// `'a: 'b + 'c`
    Lifetime { lifetime: String, outlives: Vec<String> },
    /// `Left: A + 'b`; the left side is held as its source text.
    Type { bounded_ty: String, bounds: Vec<TypeParamBound> },
}

/// The generic parameters of a type and its `where` clause; a type
/// without a `where` clause has an empty one.
#[derive(Debug, PartialEq, Eq)]
pub struct Generics {
    pub params: Vec<GenericParam>,
    pub where_clause: Vec<WherePredicate>,
}

/// A `struct`, `enum` or `union` item.
#[derive(Debug, PartialEq, Eq)]
pub struct DeriveInput {
    pub attrs: Vec<Attribute>,
    pub ident: String,
    pub generics: Generics,
    pub data: Data,
    pub span: Span,
}

} // verus!
