//! What the generator reports when it cannot derive an implementation.

use crate::syntax::Span;
use vstd::prelude::*;

verus! {

/// The kinds of problem that stop the generation for a type.
#[derive(Clone, Copy, Debug, PartialEq, Eq, Structural)]
pub enum ErrorKind {
    /// The same option stands twice in one scope.
    DuplicateOption,
    /// An option that the scope does not know.
    UnknownOption,
    /// An option whose value has the wrong form.
    MalformedValue,
    /// `reference` names a lifetime that the type does not declare.
    UndeclaredLifetime,
    /// The type is a union.
    UnsupportedShape,
    /// A field is a reference whose lifetime is not marked with `reference`.
    UnsupportedReference,
    /// `ToBorrowed` is asked for a type without a lifetime.
    NoLifetimeToRewrite,
    /// Every candidate for a new lifetime name is taken.
    LifetimeExhausted,
}

/// One problem, with the place in the input that caused it.
#[derive(Debug, PartialEq, Eq)]
pub struct Diagnostic {
    pub span: Span,
    pub kind: ErrorKind,
    pub message: String,
}

/// The mathematical content of a [`Diagnostic`].
pub struct DiagnosticView {
    pub span: Span,
    pub kind: ErrorKind,
    pub message: Seq<char>,
}

impl View for Diagnostic {
    type V = DiagnosticView;

    open spec fn view(&self) -> DiagnosticView {
        DiagnosticView { span: self.span, kind: self.kind, message: self.message@ }
    }
}

impl DeepView for Diagnostic {
    type V = DiagnosticView;

    open spec fn deep_view(&self) -> DiagnosticView {
        self@
    }
}

/// A diagnostic's content, written from its three parts.
pub open spec fn problem(span: Span, kind: ErrorKind, message: Seq<char>) -> DiagnosticView {
    DiagnosticView { span, kind, message }
}

/// Whether `result` carries `text` where `errors` is empty, and exactly
/// `errors` where it is not.
pub open spec fn delivers(
    result: Result<String, Vec<Diagnostic>>,
    text: Seq<char>,
    errors: Seq<DiagnosticView>,
) -> bool {
    match result {
        Ok(t) => errors.len() == 0 && t@ == text,
        Err(e) => errors.len() > 0 && e.deep_view() == errors,
    }
}

impl Diagnostic {
    /// A problem of the kind `kind` at the place `span`.
    pub fn new(span: Span, kind: ErrorKind, message: &str) -> (d: Diagnostic)
        ensures
            d@ == problem(span, kind, message@),
    {
        Diagnostic { span, kind, message: message.to_owned() }
    }
}

/// Appends `more` to `errors`.
pub fn extend(errors: &mut Vec<Diagnostic>, more: Vec<Diagnostic>)
    ensures
        final(errors).deep_view() == old(errors).deep_view() + more.deep_view(),
{
    let mut more = more;
    errors.append(&mut more);
}

} // verus!
