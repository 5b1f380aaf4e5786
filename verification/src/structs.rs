//! The body of the operation for a struct.

use crate::derive::{Derive, DeriveView};
use crate::diagnostic::{delivers, extend, Diagnostic, DiagnosticView};
use crate::model::FieldsView;
use crate::syntax::Fields;
use vstd::prelude::*;

verus! {

impl DeriveView {
    /// The body for a struct: its constructor, with the new value of every
    /// field.
    pub open spec fn struct_body(self, fields: FieldsView) -> Seq<char> {
        match fields {
            FieldsView::Named(named) => self.named_text(None, named),
            FieldsView::Unnamed(unnamed) => self.unnamed_text(None, unnamed),
            FieldsView::Unit => self.input.ident,
        }
    }

    /// What is reported of the fields of a struct.
    pub open spec fn struct_body_errors(self, fields: FieldsView) -> Seq<DiagnosticView> {
        match fields {
            FieldsView::Named(named) => self.named_errors(None, named),
            FieldsView::Unnamed(unnamed) => self.unnamed_errors(None, unnamed),
            FieldsView::Unit => Seq::empty(),
        }
    }
}

impl Derive<'_> {
    /// Writes the implementation for a struct with the fields `data`.
    pub fn derive_struct(&self, data: &Fields) -> (r: Result<String, Vec<Diagnostic>>)
        ensures
            delivers(
                r,
                self@.generate_text(self@.struct_body(data@)),
                self@.struct_body_errors(data@) + self@.generate_errors(),
            ),
    {
        let inner = match data {
            Fields::Named(named) => self.derive_named(None, named),
            Fields::Unnamed(unnamed) => self.derive_unnamed(None, unnamed),
            Fields::Unit => Ok(self.derive_struct_unit()),
        };
        self.around(inner)
    }

    /// The body for a struct without fields: its name.
    pub fn derive_struct_unit(&self) -> (text: String)
        ensures
            text@ == self@.input.ident,
    {
        self.input.ident.clone()
    }

    /// Writes the implementation around a body, and reports what was
    /// reported of the body together with what is reported of the type.
    pub fn around(&self, inner: Result<String, Vec<Diagnostic>>) -> (r: Result<
        String,
        Vec<Diagnostic>,
    >)
        ensures
            match inner {
                Ok(body) => delivers(r, self@.generate_text(body@), self@.generate_errors()),
                Err(errors) => r is Err && r->Err_0.deep_view() == errors.deep_view()
                    + self@.generate_errors(),
            },
    {
        match inner {
            Ok(body) => self.generate(body.as_str()),
            Err(errors) => {
                let mut errors = errors;
                match self.generate("") {
                    Ok(_) => {
                        assert(errors.deep_view() + self@.generate_errors() == errors.deep_view());
                    },
                    Err(more) => {
                        extend(&mut errors, more);
                    },
                }
                Err(errors)
            },
        }
    }
}

} // verus!
