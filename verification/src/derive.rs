//! What the generator holds while it works on one type.

use crate::attribute::{type_options, undeclared, DeriveAttribute, DeriveAttributeView};
use crate::diagnostic::{delivers, extend, problem, Diagnostic, DiagnosticView, ErrorKind};
use crate::mode::Mode;
use crate::model::{DataView, DeriveInputView};
use crate::syntax::{Data, DeriveInput, Span};
use vstd::prelude::*;

verus! {

/// The type that an implementation is derived for, its options, and the
/// operation that is derived.
pub struct Derive<'a> {
    pub input: &'a DeriveInput,
    pub attribute: &'a DeriveAttribute,
    pub mode: Mode,
}

/// The mathematical content of a [`Derive`].
pub struct DeriveView {
    pub input: DeriveInputView,
    pub attribute: DeriveAttributeView,
    pub mode: Mode,
}

impl View for Derive<'_> {
    type V = DeriveView;

    open spec fn view(&self) -> DeriveView {
        DeriveView { input: self.input@, attribute: self.attribute@, mode: self.mode }
    }
}

/// The options of the type `input`; a type whose options cannot be read
/// has none.
pub open spec fn options_of(input: DeriveInputView) -> DeriveAttributeView {
    match type_options(input.attrs) {
        Ok(attribute) => attribute,
        Err(_) => DeriveAttributeView {
            references: Seq::empty(),
            reference_span: Span::call_site(),
            clone: None,
            function: None,
        },
    }
}

/// What is reported of the options of the type `input`.
pub open spec fn options_errors(input: DeriveInputView) -> Seq<DiagnosticView> {
    match type_options(input.attrs) {
        Ok(_) => Seq::empty(),
        Err(e) => seq![e],
    }
}

/// What the generator holds while it derives `mode` for `input`.
pub open spec fn scope(input: DeriveInputView, mode: Mode) -> DeriveView {
    DeriveView { input, attribute: options_of(input), mode }
}

/// What is reported where `mode` is derived for `input`: first of the
/// options of the type, then of each lifetime of `reference` that the type
/// does not declare, then of the variants and fields in their order, then
/// of the type as a whole. A union is reported as such.
pub open spec fn derived_errors(input: DeriveInputView, mode: Mode) -> Seq<DiagnosticView> {
    let derive = scope(input, mode);
    options_errors(input) + undeclared(
        derive.attribute.references,
        input.generics,
        derive.attribute.reference_span,
    ) + match input.data {
        DataView::Struct(fields) => derive.struct_body_errors(fields) + derive.generate_errors(),
        DataView::Enum(variants) => derive.enum_body_errors(variants) + derive.generate_errors(),
        DataView::Union => seq![
            problem(input.span, ErrorKind::UnsupportedShape, "union is not supported"@),
        ],
    }
}

/// The implementation of `mode` for `input`.
pub open spec fn derived_text(input: DeriveInputView, mode: Mode) -> Seq<char> {
    let derive = scope(input, mode);
    match input.data {
        DataView::Struct(fields) => derive.generate_text(derive.struct_body(fields)),
        DataView::Enum(variants) => derive.generate_text(derive.enum_body(variants)),
        DataView::Union => Seq::empty(),
    }
}

/// Derives the operation `mode` for the type `input`. The result is the
/// text of the implementation. Where anything is reported, no text is
/// returned, and everything that is reported is returned together.
pub fn derive(input: &DeriveInput, mode: Mode) -> (r: Result<String, Vec<Diagnostic>>)
    ensures
        delivers(r, derived_text(input@, mode), derived_errors(input@, mode)),
{
    let mut errors: Vec<Diagnostic> = Vec::new();
    let attribute = match DeriveAttribute::from_derive_input(input) {
        Ok(attribute) => attribute,
        Err(d) => {
            errors.push(d);
            DeriveAttribute::new()
        },
    };
    assert(errors.deep_view() == options_errors(input@));
    assert(attribute@ == options_of(input@));
    let derive = Derive { input, attribute: &attribute, mode };
    assert(derive@ == scope(input@, mode));
    extend(&mut errors, derive.verify_lifetimes());
    let result = match &input.data {
        Data::Struct(fields) => derive.derive_struct(fields),
        Data::Enum(variants) => derive.derive_enum(variants),
        Data::Union => {
            let mut union: Vec<Diagnostic> = Vec::new();
            union.push(
                Diagnostic::new(input.span, ErrorKind::UnsupportedShape, "union is not supported"),
            );
            assert(union.deep_view() == seq![
                problem(input.span, ErrorKind::UnsupportedShape, "union is not supported"@),
            ]);
            Err(union)
        },
    };
    match result {
        Ok(text) => {
            if errors.len() > 0 {
                assert(errors.deep_view() + Seq::<DiagnosticView>::empty() == errors.deep_view());
                Err(errors)
            } else {
                Ok(text)
            }
        },
        Err(more) => {
            extend(&mut errors, more);
            Err(errors)
        },
    }
}

} // verus!
