//! The body of the operation for an enum: one `match` arm for each variant.

use crate::common::{binding, option_errors, positional};
use crate::derive::{Derive, DeriveView};
use crate::diagnostic::{delivers, extend, Diagnostic, DiagnosticView};
use crate::model::{FieldView, FieldsView, NamedFieldView, VariantView};
use crate::syntax::{Field, Fields, NamedField, Variant};
use crate::text::{join, joined};
use vstd::prelude::*;
use vstd::string::StringExecFns;

verus! {

/// The names of the fields `fields`.
pub open spec fn field_names(fields: Seq<NamedFieldView>) -> Seq<Seq<char>> {
    Seq::new(fields.len(), |i: int| fields[i].ident)
}

/// The bindings `arg0`, `arg1`, up to `n` of them.
pub open spec fn bindings(n: nat) -> Seq<Seq<char>> {
    Seq::new(n, |i: int| positional(true, i as nat))
}

impl DeriveView {
    /// The pattern for a variant with named fields: it binds every field by
    /// its name.
    pub open spec fn named_pattern(self, variant: VariantView, fields: Seq<NamedFieldView>) -> Seq<char> {
        self.constructor(Some(variant)) + " { "@ + joined(field_names(fields), ", "@) + " }"@
    }

    /// The pattern for a variant with positional fields: it binds the
    /// fields as `arg0`, `arg1` and so on.
    pub open spec fn unnamed_pattern(self, variant: VariantView, fields: Seq<FieldView>) -> Seq<char> {
        self.constructor(Some(variant)) + "("@ + joined(bindings(fields.len()), ", "@) + ")"@
    }

    /// The arm for a variant with named fields: the pattern, and the
    /// constructor of the same variant.
    pub open spec fn named_arm(self, variant: VariantView, fields: Seq<NamedFieldView>) -> Seq<char> {
        self.named_pattern(variant, fields) + " => "@ + self.named_text(Some(variant), fields)
    }

    /// The arm for a variant with positional fields: the pattern, and the
    /// constructor of the same variant.
    pub open spec fn unnamed_arm(self, variant: VariantView, fields: Seq<FieldView>) -> Seq<char> {
        self.unnamed_pattern(variant, fields) + " => "@ + self.unnamed_text(Some(variant), fields)
    }

    /// The arm for a variant without fields.
    pub open spec fn unit_arm(self, variant: VariantView) -> Seq<char> {
        self.constructor(Some(variant)) + " => "@ + self.constructor(Some(variant))
    }

    /// The arm for a variant.
    pub open spec fn arm(self, variant: VariantView) -> Seq<char> {
        match variant.fields {
            FieldsView::Named(named) => self.named_arm(variant, named),
            FieldsView::Unnamed(unnamed) => self.unnamed_arm(variant, unnamed),
            FieldsView::Unit => self.unit_arm(variant),
        }
    }

    /// What is reported of a variant: of its own options, then of its
    /// fields.
    pub open spec fn arm_errors(self, variant: VariantView) -> Seq<DiagnosticView> {
        match variant.fields {
            FieldsView::Named(named) => self.named_errors(Some(variant), named),
            FieldsView::Unnamed(unnamed) => self.unnamed_errors(Some(variant), unnamed),
            FieldsView::Unit => option_errors(variant.attrs),
        }
    }

    /// The arms for the variants `variants`.
    pub open spec fn arms(self, variants: Seq<VariantView>) -> Seq<Seq<char>> {
        Seq::new(variants.len(), |i: int| self.arm(variants[i]))
    }

    /// The body for an enum: a `match` on `self` with one arm for each
    /// variant.
    pub open spec fn enum_body(self, variants: Seq<VariantView>) -> Seq<char> {
        "match self { "@ + joined(self.arms(variants), ", "@) + " }"@
    }

    /// What is reported of the variants `variants`, in their order.
    pub open spec fn enum_body_errors(self, variants: Seq<VariantView>) -> Seq<DiagnosticView>
        decreases variants.len(),
    {
        if variants.len() == 0 {
            Seq::empty()
        } else {
            self.enum_body_errors(variants.drop_last()) + self.arm_errors(variants.last())
        }
    }
}

/// Where nothing is reported of a list of variants, nothing is reported of
/// any of them.
pub proof fn lemma_enum_errors_empty(derive: DeriveView, variants: Seq<VariantView>, j: int)
    requires
        0 <= j < variants.len(),
        derive.enum_body_errors(variants).len() == 0,
    ensures
        derive.arm_errors(variants[j]).len() == 0,
    decreases variants.len(),
{
    if j < variants.len() - 1 {
        lemma_enum_errors_empty(derive, variants.drop_last(), j);
    }
}

impl Derive<'_> {
    /// Writes the implementation for an enum with the variants `variants`.
    pub fn derive_enum(&self, variants: &Vec<Variant>) -> (r: Result<String, Vec<Diagnostic>>)
        ensures
            delivers(
                r,
                self@.generate_text(self@.enum_body(variants.deep_view())),
                self@.enum_body_errors(variants.deep_view()) + self@.generate_errors(),
            ),
    {
        let mut errors: Vec<Diagnostic> = Vec::new();
        let mut matches: Vec<String> = Vec::new();
        let mut i: usize = 0;
        let ghost all = variants.deep_view();
        proof {
            assert(all.take(0) == Seq::<VariantView>::empty());
        }
        while i < variants.len()
            invariant
                i <= variants.len(),
                matches.len() == i,
                all == variants.deep_view(),
                errors.deep_view() == self@.enum_body_errors(all.take(i as int)),
                forall|j: int|
                    0 <= j < i && self@.arm_errors(all[j]).len() == 0 ==> (#[trigger] matches[j])@
                        == self@.arm(all[j]),
            decreases variants.len() - i,
        {
            proof {
                assert(all.take(i + 1).drop_last() == all.take(i as int));
                assert(all.take(i + 1).last() == variants@[i as int]@);
            }
            let v = &variants[i];
            let arm = match &v.fields {
                Fields::Named(data) => self.match_named(v, data),
                Fields::Unnamed(data) => self.match_unnamed(v, data),
                Fields::Unit => self.match_unit(v),
            };
            match arm {
                Ok(text) => {
                    assert(errors.deep_view() + self@.arm_errors(v@) == errors.deep_view());
                    matches.push(text);
                },
                Err(more) => {
                    extend(&mut errors, more);
                    matches.push(String::new());
                },
            }
            i += 1;
        }
        proof {
            assert(all.take(variants@.len() as int) == all);
        }
        if errors.len() > 0 {
            return self.around(Err(errors));
        }
        proof {
            assert forall|j: int| 0 <= j < variants@.len() implies (#[trigger] matches[j])@
                == self@.arms(all)[j] by {
                lemma_enum_errors_empty(self@, all, j);
            }
            assert(matches.deep_view() == self@.arms(all));
        }
        let mut body = String::from_str("match self { ");
        body.append(join(&matches, ", ").as_str());
        body.append(" }");
        self.around(Ok(body))
    }

    /// Writes the arm for a variant with named fields.
    pub fn match_named(&self, variant: &Variant, data: &Vec<NamedField>) -> (r: Result<
        String,
        Vec<Diagnostic>,
    >)
        ensures
            delivers(
                r,
                self@.named_arm(variant@, data.deep_view()),
                self@.named_errors(Some(variant@), data.deep_view()),
            ),
    {
        let mut pattern: Vec<String> = Vec::new();
        let mut i: usize = 0;
        while i < data.len()
            invariant
                i <= data.len(),
                pattern.len() == i,
                forall|j: int| 0 <= j < i ==> (#[trigger] pattern[j])@ == data@[j]@.ident,
            decreases data.len() - i,
        {
            pattern.push(data[i].ident.clone());
            i += 1;
        }
        assert(pattern.deep_view() == field_names(data.deep_view()));
        let inner = match self.derive_named(Some(variant), data) {
            Ok(inner) => inner,
            Err(errors) => {
                return Err(errors);
            },
        };
        let mut text = self.constructor(Some(variant));
        text.append(" { ");
        text.append(join(&pattern, ", ").as_str());
        text.append(" }");
        text.append(" => ");
        text.append(inner.as_str());
        Ok(text)
    }

    /// Writes the arm for a variant with positional fields.
    pub fn match_unnamed(&self, variant: &Variant, data: &Vec<Field>) -> (r: Result<
        String,
        Vec<Diagnostic>,
    >)
        ensures
            delivers(
                r,
                self@.unnamed_arm(variant@, data.deep_view()),
                self@.unnamed_errors(Some(variant@), data.deep_view()),
            ),
    {
        let mut pattern: Vec<String> = Vec::new();
        let mut i: usize = 0;
        while i < data.len()
            invariant
                i <= data.len(),
                pattern.len() == i,
                forall|j: int| 0 <= j < i ==> (#[trigger] pattern[j])@ == positional(true, j as nat),
            decreases data.len() - i,
        {
            pattern.push(binding(true, i));
            i += 1;
        }
        assert(pattern.deep_view() == bindings(data@.len()));
        let inner = match self.derive_unnamed(Some(variant), data) {
            Ok(inner) => inner,
            Err(errors) => {
                return Err(errors);
            },
        };
        let mut text = self.constructor(Some(variant));
        text.append("(");
        text.append(join(&pattern, ", ").as_str());
        text.append(")");
        text.append(" => ");
        text.append(inner.as_str());
        Ok(text)
    }

    /// Writes the arm for a variant without fields.
    pub fn match_unit(&self, variant: &Variant) -> (r: Result<String, Vec<Diagnostic>>)
        ensures
            delivers(r, self@.unit_arm(variant@), option_errors(variant@.attrs)),
    {
        let mut errors: Vec<Diagnostic> = Vec::new();
        let _ = Derive::options(&variant.attrs, &mut errors);
        if errors.len() > 0 {
            return Err(errors);
        }
        let mut text = self.constructor(Some(variant));
        text.append(" => ");
        text.append(self.constructor(Some(variant)).as_str());
        Ok(text)
    }
}

} // verus!
