//! The expression that rebuilds one field, and the constructor that holds
//! the expressions of all fields of a struct or of a variant.

use crate::attribute::{field_options, or, resolved_clone, FieldAttribute, OrAssign};
use crate::derive::{Derive, DeriveView};
use crate::diagnostic::{delivers, problem, Diagnostic, DiagnosticView, ErrorKind};
use crate::mode::Mode;
use crate::model::{AttributeView, FieldView, NamedFieldView, TypeView, VariantView};
use crate::syntax::{Attribute, Field, NamedField, Span, Type, Variant};
use crate::text::{decimal, join, joined, to_decimal};
use vstd::prelude::*;
use vstd::string::StringExecFns;

verus! {

/// The three ways in which a field's new value is made.
#[derive(Clone, Copy, Debug, PartialEq, Eq, Structural)]
pub enum Call {
    /// The field is a reference that is kept as it is.
    Reference,
    /// The field is cloned.
    Clone,
    /// The operation that is being derived is applied to the field.
    Convert,
}

/// How the new value of a field of type `ty` is made, where `references`
/// are the lifetimes that are never rewritten and `clone` says whether the
/// field is cloned. A reference with a lifetime is kept if its lifetime is
/// one of `references`, and has no new value otherwise. Any other field is
/// cloned if `clone` says so, and converted if not.
pub open spec fn call_of(references: Seq<Seq<char>>, clone: bool, ty: TypeView) -> Option<Call> {
    match ty.reference_lifetime() {
        Some(lifetime) => if references.contains(lifetime) {
            Some(Call::Reference)
        } else {
            None
        },
        None => if clone {
            Some(Call::Clone)
        } else {
            Some(Call::Convert)
        },
    }
}

/// The expression for the field itself: `self.index` in a struct, the
/// binding `index` in a `match` arm.
pub open spec fn place(index: Seq<char>, with_self: bool) -> Seq<char> {
    if with_self {
        "self."@ + index
    } else {
        index
    }
}

/// The expression for the new value of a field.
pub open spec fn call_text(call: Call, mode: Mode, index: Seq<char>, with_self: bool) -> Seq<char> {
    match call {
        Call::Reference => place(index, with_self),
        Call::Clone => "::core::clone::Clone::clone(&"@ + place(index, with_self) + ")"@,
        Call::Convert => mode.name_text() + "::"@ + mode.function_text() + "("@ + (if with_self {
            mode.as_ref_text()
        } else {
            Seq::empty()
        }) + place(index, with_self) + ")"@,
    }
}

/// What is reported of a reference whose lifetime may be rewritten.
pub open spec fn unsupported_reference(span: Span) -> DiagnosticView {
    problem(
        span,
        ErrorKind::UnsupportedReference,
        "References are not supported out of the box, see: https://docs.rs/ownable/*/ownable/#references"@,
    )
}

/// The `clone` option of a scope that carries `attrs`; a scope whose
/// options cannot be read sets nothing.
pub open spec fn clone_option(attrs: Seq<AttributeView>) -> Option<bool> {
    match field_options(attrs) {
        Ok(attribute) => attribute.clone,
        Err(_) => None,
    }
}

/// What is reported of the options of a scope that carries `attrs`.
pub open spec fn option_errors(attrs: Seq<AttributeView>) -> Seq<DiagnosticView> {
    match field_options(attrs) {
        Ok(_) => Seq::empty(),
        Err(e) => seq![e],
    }
}

impl DeriveView {
    /// Whether a field is cloned, given the `clone` option of the variant
    /// around it.
    pub open spec fn clones(self, variant: Option<bool>, field: FieldView) -> bool {
        resolved_clone(clone_option(field.attrs), variant, self.attribute.clone)
    }

    /// How the new value of a field is made.
    pub open spec fn call(self, variant: Option<bool>, field: FieldView) -> Option<Call> {
        call_of(self.attribute.references, self.clones(variant, field), field.ty)
    }

    /// What is reported of one field.
    pub open spec fn field_errors(self, variant: Option<bool>, field: FieldView) -> Seq<
        DiagnosticView,
    > {
        option_errors(field.attrs) + (if self.call(variant, field) is None {
            seq![unsupported_reference(field.ty.span())]
        } else {
            Seq::empty()
        })
    }

    /// The expression for the new value of one field.
    pub open spec fn field_text(
        self,
        variant: Option<bool>,
        field: FieldView,
        index: Seq<char>,
        with_self: bool,
    ) -> Seq<char> {
        call_text(self.call(variant, field)->0, self.mode, index, with_self)
    }

    /// The path of the constructor: the type's name, and the variant's
    /// name after it inside an enum.
    pub open spec fn constructor(self, variant: Option<VariantView>) -> Seq<char> {
        match variant {
            Some(v) => self.input.ident + "::"@ + v.ident,
            None => self.input.ident,
        }
    }
}

/// The `clone` option of a variant, if there is a variant.
pub open spec fn variant_clone(variant: Option<VariantView>) -> Option<bool> {
    match variant {
        Some(v) => clone_option(v.attrs),
        None => None,
    }
}

/// What is reported of the options of a variant, if there is a variant.
pub open spec fn variant_errors(variant: Option<VariantView>) -> Seq<DiagnosticView> {
    match variant {
        Some(v) => option_errors(v.attrs),
        None => Seq::empty(),
    }
}

impl DeriveView {
    /// What is reported of the fields `fields`, in their order.
    pub open spec fn fields_errors(self, variant: Option<bool>, fields: Seq<FieldView>) -> Seq<
        DiagnosticView,
    >
        decreases fields.len(),
    {
        if fields.len() == 0 {
            Seq::empty()
        } else {
            self.fields_errors(variant, fields.drop_last()) + self.field_errors(
                variant,
                fields.last(),
            )
        }
    }

    /// The entries of a constructor with named fields: `name: value`.
    pub open spec fn named_entries(
        self,
        variant: Option<VariantView>,
        fields: Seq<NamedFieldView>,
    ) -> Seq<Seq<char>> {
        Seq::new(
            fields.len(),
            |i: int|
                fields[i].ident + ": "@ + self.field_text(
                    variant_clone(variant),
                    fields[i].field,
                    fields[i].ident,
                    variant is None,
                ),
        )
    }

    /// The constructor of a struct or a variant with named fields.
    pub open spec fn named_text(
        self,
        variant: Option<VariantView>,
        fields: Seq<NamedFieldView>,
    ) -> Seq<char> {
        self.constructor(variant) + " { "@ + joined(self.named_entries(variant, fields), ", "@)
            + " }"@
    }

    /// What is reported of a struct or a variant with named fields.
    pub open spec fn named_errors(
        self,
        variant: Option<VariantView>,
        fields: Seq<NamedFieldView>,
    ) -> Seq<DiagnosticView> {
        variant_errors(variant) + self.fields_errors(variant_clone(variant), plain(fields))
    }

    /// The entries of a constructor with positional fields. In a struct the
    /// field is reached as `self.0`, in a `match` arm as the binding `arg0`.
    pub open spec fn unnamed_entries(
        self,
        variant: Option<VariantView>,
        fields: Seq<FieldView>,
    ) -> Seq<Seq<char>> {
        Seq::new(
            fields.len(),
            |i: int|
                self.field_text(
                    variant_clone(variant),
                    fields[i],
                    positional(variant is Some, i as nat),
                    variant is None,
                ),
        )
    }

    /// The constructor of a struct or a variant with positional fields.
    pub open spec fn unnamed_text(
        self,
        variant: Option<VariantView>,
        fields: Seq<FieldView>,
    ) -> Seq<char> {
        self.constructor(variant) + "("@ + joined(self.unnamed_entries(variant, fields), ", "@)
            + ")"@
    }

    /// What is reported of a struct or a variant with positional fields.
    pub open spec fn unnamed_errors(
        self,
        variant: Option<VariantView>,
        fields: Seq<FieldView>,
    ) -> Seq<DiagnosticView> {
        variant_errors(variant) + self.fields_errors(variant_clone(variant), fields)
    }
}

/// Writes the name by which the field at position `i` is reached.
pub fn binding(bound: bool, i: usize) -> (text: String)
    ensures
        text@ == positional(bound, i as nat),
{
    let mut text = String::new();
    if bound {
        text.append("arg");
    }
    text.append(to_decimal(i).as_str());
    text
}

/// The name by which the field at position `i` is reached: `argi` where it
/// is bound by a pattern, `i` where it is a field of `self`.
pub open spec fn positional(bound: bool, i: nat) -> Seq<char> {
    if bound {
        "arg"@ + decimal(i)
    } else {
        decimal(i)
    }
}

/// The content of the variant, where there is one.
pub open spec fn owned(variant: Option<&Variant>) -> Option<VariantView> {
    match variant {
        Some(v) => Some(v@),
        None => None,
    }
}

/// The `clone` option of a resolved variant, where there is one.
pub open spec fn clone_of(variant: Option<FieldAttribute>) -> Option<bool> {
    match variant {
        Some(v) => v.clone,
        None => None,
    }
}

/// The fields of a list of named fields.
pub open spec fn plain(fields: Seq<NamedFieldView>) -> Seq<FieldView> {
    fields.map_values(|f: NamedFieldView| f.field)
}

/// Where nothing is reported of a list of fields, nothing is reported of
/// any of them.
pub proof fn lemma_fields_errors_empty(
    derive: DeriveView,
    variant: Option<bool>,
    fields: Seq<FieldView>,
    j: int,
)
    requires
        0 <= j < fields.len(),
        derive.fields_errors(variant, fields).len() == 0,
    ensures
        derive.field_errors(variant, fields[j]).len() == 0,
    decreases fields.len(),
{
    if j < fields.len() - 1 {
        lemma_fields_errors_empty(derive, variant, fields.drop_last(), j);
    }
}

impl Derive<'_> {
    /// The constructor of a struct (`variant` is empty) or of a variant
    /// with named fields.
    pub fn derive_named(&self, variant: Option<&Variant>, data: &Vec<NamedField>) -> (r: Result<
        String,
        Vec<Diagnostic>,
    >)
        ensures
            delivers(
                r,
                self@.named_text(owned(variant), data.deep_view()),
                self@.named_errors(owned(variant), data.deep_view()),
            ),
    {
        let mut errors: Vec<Diagnostic> = Vec::new();
        let attribute = self.variant_options(variant, &mut errors);
        let mut entries: Vec<String> = Vec::new();
        let mut i: usize = 0;
        let ghost fields = data.deep_view();
        proof {
            assert(plain(fields).take(0) == Seq::<FieldView>::empty());
        }
        while i < data.len()
            invariant
                i <= data.len(),
                entries.len() == i,
                clone_of(attribute) == variant_clone(owned(variant)),
                fields == data.deep_view(),
                errors.deep_view() == variant_errors(owned(variant)) + self@.fields_errors(
                    variant_clone(owned(variant)),
                    plain(fields).take(i as int),
                ),
                forall|j: int|
                    0 <= j < i && self@.field_errors(
                        variant_clone(owned(variant)),
                        fields[j].field,
                    ).len() == 0 ==> (#[trigger] entries[j])@ == self@.named_entries(
                        owned(variant),
                        fields,
                    )[j],
            decreases data.len() - i,
        {
            proof {
                assert(plain(fields).take(i + 1).drop_last() == plain(fields).take(i as int));
                assert(fields[i as int] == data@[i as int]@);
                assert(plain(fields).take(i + 1).last() == data@[i as int]@.field);
            }
            let value = self.field(
                attribute,
                &data[i].field,
                data[i].ident.as_str(),
                variant.is_none(),
                &mut errors,
            );
            let mut entry = data[i].ident.clone();
            entry.append(": ");
            entry.append(value.as_str());
            entries.push(entry);
            i += 1;
        }
        proof {
            assert(plain(fields).take(data@.len() as int) == plain(fields));
        }
        if errors.len() > 0 {
            return Err(errors);
        }
        proof {
            assert forall|j: int| 0 <= j < data@.len() implies (#[trigger] entries[j])@
                == self@.named_entries(owned(variant), fields)[j] by {
                lemma_fields_errors_empty(self@, variant_clone(owned(variant)), plain(fields), j);
            }
            assert(entries.deep_view() == self@.named_entries(owned(variant), fields));
        }
        let mut text = self.constructor(variant);
        text.append(" { ");
        text.append(join(&entries, ", ").as_str());
        text.append(" }");
        Ok(text)
    }

    /// The constructor of a struct (`variant` is empty) or of a variant
    /// with positional fields.
    pub fn derive_unnamed(&self, variant: Option<&Variant>, data: &Vec<Field>) -> (r: Result<
        String,
        Vec<Diagnostic>,
    >)
        ensures
            delivers(
                r,
                self@.unnamed_text(owned(variant), data.deep_view()),
                self@.unnamed_errors(owned(variant), data.deep_view()),
            ),
    {
        let mut errors: Vec<Diagnostic> = Vec::new();
        let attribute = self.variant_options(variant, &mut errors);
        let mut entries: Vec<String> = Vec::new();
        let mut i: usize = 0;
        let ghost fields = data.deep_view();
        proof {
            assert(fields.take(0) == Seq::<FieldView>::empty());
        }
        while i < data.len()
            invariant
                i <= data.len(),
                entries.len() == i,
                clone_of(attribute) == variant_clone(owned(variant)),
                fields == data.deep_view(),
                errors.deep_view() == variant_errors(owned(variant)) + self@.fields_errors(
                    variant_clone(owned(variant)),
                    fields.take(i as int),
                ),
                forall|j: int|
                    0 <= j < i && self@.field_errors(variant_clone(owned(variant)), fields[j]).len()
                        == 0 ==> (#[trigger] entries[j])@ == self@.unnamed_entries(
                        owned(variant),
                        fields,
                    )[j],
            decreases data.len() - i,
        {
            proof {
                assert(fields.take(i + 1).drop_last() == fields.take(i as int));
                assert(fields.take(i + 1).last() == data@[i as int]@);
            }
            let index = binding(variant.is_some(), i);
            let value = self.field(
                attribute,
                &data[i],
                index.as_str(),
                variant.is_none(),
                &mut errors,
            );
            entries.push(value);
            i += 1;
        }
        proof {
            assert(fields.take(data@.len() as int) == fields);
        }
        if errors.len() > 0 {
            return Err(errors);
        }
        proof {
            assert forall|j: int| 0 <= j < data@.len() implies (#[trigger] entries[j])@
                == self@.unnamed_entries(owned(variant), fields)[j] by {
                lemma_fields_errors_empty(self@, variant_clone(owned(variant)), fields, j);
            }
            assert(entries.deep_view() == self@.unnamed_entries(owned(variant), fields));
        }
        let mut text = self.constructor(variant);
        text.append("(");
        text.append(join(&entries, ", ").as_str());
        text.append(")");
        Ok(text)
    }

    /// The path of the constructor.
    pub fn constructor(&self, variant: Option<&Variant>) -> (text: String)
        ensures
            text@ == self@.constructor(owned(variant)),
    {
        let mut text = self.input.ident.clone();
        if let Some(v) = variant {
            text.append("::");
            text.append(v.ident.as_str());
        }
        text
    }

    /// The options of the variant, where there is one, with what is
    /// reported of them.
    fn variant_options(&self, variant: Option<&Variant>, errors: &mut Vec<Diagnostic>) -> (attribute:
        Option<FieldAttribute>)
        requires
            old(errors)@.len() == 0,
        ensures
            clone_of(attribute) == variant_clone(owned(variant)),
            final(errors).deep_view() == variant_errors(owned(variant)),
    {
        match variant {
            Some(v) => Some(Derive::options(&v.attrs, errors)),
            None => None,
        }
    }

    /// The `clone` option of a variant or of a field, with what is reported
    /// of its options.
    pub fn options(attrs: &Vec<Attribute>, errors: &mut Vec<Diagnostic>) -> (attribute: FieldAttribute)
        ensures
            attribute.clone == clone_option(attrs.deep_view()),
            final(errors).deep_view() == old(errors).deep_view() + option_errors(attrs.deep_view()),
    {
        match FieldAttribute::new(attrs) {
            Ok(attribute) => {
                assert(errors.deep_view() + Seq::<DiagnosticView>::empty() == errors.deep_view());
                attribute
            },
            Err(d) => {
                let ghost before = errors.deep_view();
                errors.push(d);
                assert(errors.deep_view() == before + seq![d@]);
                FieldAttribute { clone: None }
            },
        }
    }

    /// The expression for the new value of one field, or what is reported
    /// of it. `variant` holds the options of the variant around it.
    fn field(
        &self,
        variant: Option<FieldAttribute>,
        field: &Field,
        index: &str,
        with_self: bool,
        errors: &mut Vec<Diagnostic>,
    ) -> (text: String)
        ensures
            final(errors).deep_view() == old(errors).deep_view() + self@.field_errors(
                clone_of(variant),
                field@,
            ),
            self@.field_errors(clone_of(variant), field@).len() == 0 ==> text@
                == self@.field_text(clone_of(variant), field@, index@, with_self),
    {
        let ghost before = errors.deep_view();
        let mut attribute = Derive::options(&field.attrs, errors);
        if let Some(v) = variant {
            attribute.or_assign(&v);
        }
        attribute.or_assign(self.attribute);
        match self.create_call(&attribute, index, with_self, &field.ty) {
            Ok(text) => {
                assert(errors.deep_view() == before + self@.field_errors(clone_of(variant), field@));
                text
            },
            Err(d) => {
                let ghost middle = errors.deep_view();
                errors.push(d);
                assert(errors.deep_view() == middle + seq![d@]);
                assert(errors.deep_view() == before + self@.field_errors(clone_of(variant), field@));
                String::new()
            },
        }
    }

    /// How the new value of one field is made; nothing for a reference
    /// whose lifetime may be rewritten. `variant` holds the options of the
    /// variant around the field.
    pub fn call(&self, variant: Option<FieldAttribute>, field: &Field) -> (call: Option<Call>)
        ensures
            call == self@.call(clone_of(variant), field@),
    {
        let mut attribute = match FieldAttribute::new(&field.attrs) {
            Ok(attribute) => attribute,
            Err(_) => FieldAttribute { clone: None },
        };
        if let Some(v) = variant {
            attribute.or_assign(&v);
        }
        attribute.or_assign(self.attribute);
        if let Some(lifetime) = field.ty.reference_lifetime() {
            if self.attribute.is_reference_lifetime(lifetime.as_str()) {
                Some(Call::Reference)
            } else {
                None
            }
        } else if attribute.clone == Some(true) {
            Some(Call::Clone)
        } else {
            Some(Call::Convert)
        }
    }

    /// The expression for the new value of a field of type `ty` that
    /// carries the resolved options `field_attribute`. `index` names the
    /// field, and `with_self` says whether it is reached through `self`.
    pub fn create_call(
        &self,
        field_attribute: &FieldAttribute,
        index: &str,
        with_self: bool,
        ty: &Type,
    ) -> (r: Result<String, Diagnostic>)
        ensures
            match call_of(
                self.attribute.references(),
                field_attribute.clone == Some(true),
                ty@,
            ) {
                Some(call) => r is Ok && r->Ok_0@ == call_text(call, self.mode, index@, with_self),
                None => r is Err && r->Err_0@ == unsupported_reference(ty@.span()),
            },
    {
        let mut field = String::new();
        if with_self {
            field.append("self.");
        }
        field.append(index);
        assert(field@ == place(index@, with_self));
        if let Some(lifetime) = ty.reference_lifetime() {
            if self.attribute.is_reference_lifetime(lifetime.as_str()) {
                Ok(field)
            } else {
                Err(
                    Diagnostic::new(
                        ty.span(),
                        ErrorKind::UnsupportedReference,
                        "References are not supported out of the box, see: https://docs.rs/ownable/*/ownable/#references",
                    ),
                )
            }
        } else if field_attribute.clone == Some(true) {
            let mut text = String::from_str("::core::clone::Clone::clone(&");
            text.append(field.as_str());
            text.append(")");
            Ok(text)
        } else {
            let mut text = String::from_str(self.mode.name());
            text.append("::");
            text.append(self.mode.function());
            text.append("(");
            if with_self {
                text.append(self.mode.as_ref());
            }
            text.append(field.as_str());
            text.append(")");
            assert(text@ == call_text(Call::Convert, self.mode, index@, with_self));
            Ok(text)
        }
    }
}

} // verus!
