//! The mathematical content of the description of a type.
//!
//! Each type of the description has a view: the same shape, with a sequence
//! of characters for each string and a sequence for each list. The
//! contracts of the generator speak of these views.

use crate::syntax::{
    Attribute, ConstParam, Data, DeriveInput, Field, Fields, GenericArgument, GenericParam,
    Generics, LifetimeParam, Lit, LitKind, Meta, NamedField, NestedMeta, Path, Span, Type,
    TypeParam, TypeParamBound, Variant, WherePredicate,
};
use vstd::prelude::*;

verus! {

/// The content of a [`Path`].
pub struct PathView {
    pub ident: Option<Seq<char>>,
    pub span: Span,
}

/// The content of a [`LitKind`].
pub enum LitKindView {
    Bool(bool),
    Str(Seq<char>),
    Other,
}

/// The content of a [`Lit`].
pub struct LitView {
    pub kind: LitKindView,
    pub span: Span,
}

/// The content of a [`NestedMeta`].
pub enum NestedMetaView {
    Path { path: PathView, span: Span },
    NameValue { path: PathView, value: Option<LitView>, span: Span },
    List { path: PathView, span: Span },
}

/// The content of a [`Meta`].
pub enum MetaView {
    Path,
    List { nested: Result<Seq<NestedMetaView>, Seq<char>> },
    NameValue,
}

/// The content of a [`Attribute`].
pub struct AttributeView {
    pub path: PathView,
    pub meta: MetaView,
    pub span: Span,
}

/// The content of a [`Type`].
pub enum TypeView {
    Reference { lifetime: Option<Seq<char>>, mutable: bool, elem: Box<TypeView>, span: Span },
    Path { name: Seq<char>, arguments: Seq<ArgumentView>, span: Span },
}

/// The content of a [`GenericArgument`].
pub enum ArgumentView {
    Lifetime(Seq<char>),
    Type(TypeView),
    Const(Seq<char>),
}

/// The content of a [`Field`].
pub struct FieldView {
    pub attrs: Seq<AttributeView>,
    pub ty: TypeView,
}

/// The content of a [`NamedField`].
pub struct NamedFieldView {
    pub ident: Seq<char>,
    pub field: FieldView,
}

/// The content of a [`Fields`].
pub enum FieldsView {
    Named(Seq<NamedFieldView>),
    Unnamed(Seq<FieldView>),
    Unit,
}

/// The content of a [`Variant`].
pub struct VariantView {
    pub attrs: Seq<AttributeView>,
    pub ident: Seq<char>,
    pub fields: FieldsView,
}

/// The content of a [`Data`].
pub enum DataView {
    Struct(FieldsView),
    Enum(Seq<VariantView>),
    Union,
}

/// The content of a [`LifetimeParam`].
pub struct LifetimeParamView {
    pub lifetime: Seq<char>,
    pub bounds: Seq<Seq<char>>,
}

/// The content of a [`TypeParamBound`].
pub enum TypeParamBoundView {
    Lifetime(Seq<char>),
    Maybe(Seq<char>),
    Trait(Seq<char>),
}

/// The content of a [`TypeParam`].
pub struct TypeParamView {
    pub ident: Seq<char>,
    pub bounds: Seq<TypeParamBoundView>,
}

/// The content of a [`ConstParam`].
pub struct ConstParamView {
    pub ident: Seq<char>,
    pub ty: Seq<char>,
}

/// The content of a [`GenericParam`].
pub enum GenericParamView {
    Lifetime(LifetimeParamView),
    Type(TypeParamView),
    Const(ConstParamView),
}

/// The content of a [`WherePredicate`].
#[allow(inconsistent_fields)]
pub enum WherePredicateView {
    Lifetime { lifetime: Seq<char>, outlives: Seq<Seq<char>> },
    Type { bounded_ty: Seq<char>, bounds: Seq<TypeParamBoundView> },
}

/// The content of a [`Generics`].
pub struct GenericsView {
    pub params: Seq<GenericParamView>,
    pub where_clause: Seq<WherePredicateView>,
}

/// The content of a [`DeriveInput`].
pub struct DeriveInputView {
    pub attrs: Seq<AttributeView>,
    pub ident: Seq<char>,
    pub generics: GenericsView,
    pub data: DataView,
    pub span: Span,
}

impl TypeView {
    /// The place of the type in the input.
    pub open spec fn span(self) -> Span {
        match self {
            TypeView::Reference { span, .. } => span,
            TypeView::Path { span, .. } => span,
        }
    }
}

impl View for Path {
    type V = PathView;

    open spec fn view(&self) -> PathView {
        PathView { ident: self.ident.deep_view(), span: self.span }
    }
}

impl DeepView for Path {
    type V = PathView;

    open spec fn deep_view(&self) -> PathView {
        self@
    }
}

impl View for LitKind {
    type V = LitKindView;

    open spec fn view(&self) -> LitKindView {
        match self {
            LitKind::Bool(b) => LitKindView::Bool(*b),
            LitKind::Str(s) => LitKindView::Str(s@),
            LitKind::Other => LitKindView::Other,
        }
    }
}

impl View for Lit {
    type V = LitView;

    open spec fn view(&self) -> LitView {
        LitView { kind: self.kind@, span: self.span }
    }
}

impl DeepView for Lit {
    type V = LitView;

    open spec fn deep_view(&self) -> LitView {
        self@
    }
}

impl View for NestedMeta {
    type V = NestedMetaView;

    open spec fn view(&self) -> NestedMetaView {
        match self {
            NestedMeta::Path { path, span } => NestedMetaView::Path { path: path@, span: *span },
            NestedMeta::NameValue { path, value, span } => NestedMetaView::NameValue {
                path: path@,
                value: value.deep_view(),
                span: *span,
            },
            NestedMeta::List { path, span } => NestedMetaView::List { path: path@, span: *span },
        }
    }
}

impl DeepView for NestedMeta {
    type V = NestedMetaView;

    open spec fn deep_view(&self) -> NestedMetaView {
        self@
    }
}

impl View for Meta {
    type V = MetaView;

    open spec fn view(&self) -> MetaView {
        match self {
            Meta::Path => MetaView::Path,
            Meta::List { nested } => MetaView::List {
                nested: match nested {
                    Ok(items) => Ok(items.deep_view()),
                    Err(message) => Err(message@),
                },
            },
            Meta::NameValue => MetaView::NameValue,
        }
    }
}

impl View for Attribute {
    type V = AttributeView;

    open spec fn view(&self) -> AttributeView {
        AttributeView { path: self.path@, meta: self.meta@, span: self.span }
    }
}

impl DeepView for Attribute {
    type V = AttributeView;

    open spec fn deep_view(&self) -> AttributeView {
        self@
    }
}

impl Type {
    /// The content of the type expression.
    pub open spec fn model(self) -> TypeView
        decreases self,
    {
        match self {
            Type::Reference { lifetime, mutable, elem, span } => TypeView::Reference {
                lifetime: match lifetime {
                    Some(l) => Some(l@),
                    None => None,
                },
                mutable,
                elem: Box::new((*elem).model()),
                span,
            },
            Type::Path { name, arguments, span } => TypeView::Path {
                name: name@,
                arguments: Seq::new(
                    arguments@.len(),
                    |i: int|
                        if 0 <= i < arguments@.len() {
                            arguments@[i].model()
                        } else {
                            ArgumentView::Lifetime(Seq::empty())
                        },
                ),
                span,
            },
        }
    }
}

impl GenericArgument {
    /// The content of the argument.
    pub open spec fn model(self) -> ArgumentView
        decreases self,
    {
        match self {
            GenericArgument::Lifetime(l) => ArgumentView::Lifetime(l@),
            GenericArgument::Type(t) => ArgumentView::Type(t.model()),
            GenericArgument::Const(c) => ArgumentView::Const(c@),
        }
    }
}

impl View for Type {
    type V = TypeView;

    open spec fn view(&self) -> TypeView {
        self.model()
    }
}

impl View for GenericArgument {
    type V = ArgumentView;

    open spec fn view(&self) -> ArgumentView {
        self.model()
    }
}

impl View for Field {
    type V = FieldView;

    open spec fn view(&self) -> FieldView {
        FieldView { attrs: self.attrs.deep_view(), ty: self.ty@ }
    }
}

impl DeepView for Field {
    type V = FieldView;

    open spec fn deep_view(&self) -> FieldView {
        self@
    }
}

impl View for NamedField {
    type V = NamedFieldView;

    open spec fn view(&self) -> NamedFieldView {
        NamedFieldView { ident: self.ident@, field: self.field@ }
    }
}

impl DeepView for NamedField {
    type V = NamedFieldView;

    open spec fn deep_view(&self) -> NamedFieldView {
        self@
    }
}

impl View for Fields {
    type V = FieldsView;

    open spec fn view(&self) -> FieldsView {
        match self {
            Fields::Named(named) => FieldsView::Named(named.deep_view()),
            Fields::Unnamed(unnamed) => FieldsView::Unnamed(unnamed.deep_view()),
            Fields::Unit => FieldsView::Unit,
        }
    }
}

impl View for Variant {
    type V = VariantView;

    open spec fn view(&self) -> VariantView {
        VariantView { attrs: self.attrs.deep_view(), ident: self.ident@, fields: self.fields@ }
    }
}

impl DeepView for Variant {
    type V = VariantView;

    open spec fn deep_view(&self) -> VariantView {
        self@
    }
}

impl View for Data {
    type V = DataView;

    open spec fn view(&self) -> DataView {
        match self {
            Data::Struct(fields) => DataView::Struct(fields@),
            Data::Enum(variants) => DataView::Enum(variants.deep_view()),
            Data::Union => DataView::Union,
        }
    }
}

impl View for LifetimeParam {
    type V = LifetimeParamView;

    open spec fn view(&self) -> LifetimeParamView {
        LifetimeParamView { lifetime: self.lifetime@, bounds: self.bounds.deep_view() }
    }
}

impl View for TypeParamBound {
    type V = TypeParamBoundView;

    open spec fn view(&self) -> TypeParamBoundView {
        match self {
            TypeParamBound::Lifetime(l) => TypeParamBoundView::Lifetime(l@),
            TypeParamBound::Maybe(t) => TypeParamBoundView::Maybe(t@),
            TypeParamBound::Trait(t) => TypeParamBoundView::Trait(t@),
        }
    }
}

impl DeepView for TypeParamBound {
    type V = TypeParamBoundView;

    open spec fn deep_view(&self) -> TypeParamBoundView {
        self@
    }
}

impl View for TypeParam {
    type V = TypeParamView;

    open spec fn view(&self) -> TypeParamView {
        TypeParamView { ident: self.ident@, bounds: self.bounds.deep_view() }
    }
}

impl View for ConstParam {
    type V = ConstParamView;

    open spec fn view(&self) -> ConstParamView {
        ConstParamView { ident: self.ident@, ty: self.ty@ }
    }
}

impl View for GenericParam {
    type V = GenericParamView;

    open spec fn view(&self) -> GenericParamView {
        match self {
            GenericParam::Lifetime(l) => GenericParamView::Lifetime(l@),
            GenericParam::Type(t) => GenericParamView::Type(t@),
            GenericParam::Const(c) => GenericParamView::Const(c@),
        }
    }
}

impl DeepView for GenericParam {
    type V = GenericParamView;

    open spec fn deep_view(&self) -> GenericParamView {
        self@
    }
}

impl View for WherePredicate {
    type V = WherePredicateView;

    open spec fn view(&self) -> WherePredicateView {
        match self {
            WherePredicate::Lifetime { lifetime, outlives } => WherePredicateView::Lifetime {
                lifetime: lifetime@,
                outlives: outlives.deep_view(),
            },
            WherePredicate::Type { bounded_ty, bounds } => WherePredicateView::Type {
                bounded_ty: bounded_ty@,
                bounds: bounds.deep_view(),
            },
        }
    }
}

impl DeepView for WherePredicate {
    type V = WherePredicateView;

    open spec fn deep_view(&self) -> WherePredicateView {
        self@
    }
}

impl View for Generics {
    type V = GenericsView;

    open spec fn view(&self) -> GenericsView {
        GenericsView {
            params: self.params.deep_view(),
            where_clause: self.where_clause.deep_view(),
        }
    }
}

impl View for DeriveInput {
    type V = DeriveInputView;

    open spec fn view(&self) -> DeriveInputView {
        DeriveInputView {
            attrs: self.attrs.deep_view(),
            ident: self.ident@,
            generics: self.generics@,
            data: self.data@,
            span: self.span,
        }
    }
}

} // verus!
