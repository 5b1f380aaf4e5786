//! The options that a type, a variant or a field carries.

use crate::attribute_parser::{
    bool_of, parsed, position, required_str_of, without, EntryView, Error, Features,
};
use crate::derive::Derive;
use crate::diagnostic::{problem, Diagnostic, DiagnosticView, ErrorKind};
use crate::model::{AttributeView, GenericParamView, GenericsView};
use crate::syntax::{Attribute, DeriveInput, GenericParam, Generics, Span};
use crate::text::{same, split, split_text, trim, trim_text};
use vstd::prelude::*;
use vstd::string::StringExecFns;

verus! {

/// The lifetimes named by `reference = "..."`, without their apostrophes.
#[derive(Debug, PartialEq, Eq)]
pub struct LifetimesAttribute(pub Vec<String>);

/// The options of a type.
#[derive(Debug, PartialEq, Eq)]
pub struct DeriveAttribute {
    /// The lifetimes that stand for references and are never rewritten.
    pub reference_lifetime: LifetimesAttribute,
    /// Where `reference` stands in the input.
    pub reference_span: Span,
    /// Whether fields are cloned, unless a variant or a field says otherwise.
    pub clone: Option<bool>,
    /// Whether the convenience method is generated.
    pub function: Option<bool>,
}

/// The mathematical content of a [`DeriveAttribute`].
pub struct DeriveAttributeView {
    pub references: Seq<Seq<char>>,
    pub reference_span: Span,
    pub clone: Option<bool>,
    pub function: Option<bool>,
}

impl View for DeriveAttribute {
    type V = DeriveAttributeView;

    open spec fn view(&self) -> DeriveAttributeView {
        DeriveAttributeView {
            references: self.reference_lifetime.0.deep_view(),
            reference_span: self.reference_span,
            clone: self.clone,
            function: self.function,
        }
    }
}

/// The lifetimes that a type declares, in two classes.
#[derive(Debug, PartialEq, Eq)]
pub struct Classification {
    /// The lifetimes that are never rewritten, in the order of declaration.
    pub pass_through: Vec<String>,
    /// The lifetimes that each operation rewrites, in the order of
    /// declaration.
    pub rewritable: Vec<String>,
}

/// The options of a variant or of a field.
#[derive(Clone, Copy, Debug, PartialEq, Eq, Structural)]
pub struct FieldAttribute {
    pub clone: Option<bool>,
}

/// The first of two optional values that is set.
pub open spec fn or(first: Option<bool>, second: Option<bool>) -> Option<bool> {
    if first is Some {
        first
    } else {
        second
    }
}

/// Whether the field that carries `field` is cloned, inside a variant that
/// carries `variant` and a type that carries `derive`: the innermost value
/// that is set decides, and where none is set the field is not cloned.
pub open spec fn resolved_clone(
    field: Option<bool>,
    variant: Option<bool>,
    derive: Option<bool>,
) -> bool {
    match or(or(field, variant), derive) {
        Some(clone) => clone,
        None => false,
    }
}

/// The flag named `key` among `entries`, if it is there.
pub open spec fn flag(entries: Seq<EntryView>, key: Seq<char>) -> Result<Option<bool>, DiagnosticView> {
    match position(entries, key) {
        None => Ok(None),
        Some(i) => match bool_of(entries[i].param) {
            Ok(b) => Ok(Some(b)),
            Err(e) => Err(e),
        },
    }
}

/// The lifetimes that the option `reference` among `entries` names, with
/// the place of its value.
pub open spec fn reference(entries: Seq<EntryView>) -> Result<(Seq<Seq<char>>, Span), DiagnosticView> {
    match position(entries, "reference"@) {
        None => Ok((Seq::empty(), Span::call_site())),
        Some(i) => match required_str_of(entries[i].param) {
            Err(e) => Err(e),
            Ok(value) => {
                let span = entries[i].param.lit->0.span;
                if all_lifetimes(split(value, ',')) {
                    Ok((lifetime_names(split(value, ',')), span))
                } else {
                    Err(problem(span, ErrorKind::MalformedValue, "not a lifetime"@))
                }
            },
        },
    }
}

/// What is reported of the first option that nobody asked for.
pub open spec fn leftover(entries: Seq<EntryView>) -> Option<DiagnosticView> {
    if entries.len() == 0 {
        None
    } else {
        Some(Error::UnknownFeature.report(entries[0].param.span))
    }
}

/// The options of a variant or of a field that carries `attrs`: `clone`
/// and nothing else.
pub open spec fn field_options(attrs: Seq<AttributeView>) -> Result<FieldAttribute, DiagnosticView> {
    match parsed("ownable"@, attrs) {
        Err(e) => Err(e),
        Ok(entries) => match flag(entries, "clone"@) {
            Err(e) => Err(e),
            Ok(clone) => match leftover(without(entries, "clone"@)) {
                Some(e) => Err(e),
                None => Ok(FieldAttribute { clone }),
            },
        },
    }
}

/// The options of a type that carries `attrs`: `clone`, `function` and
/// `reference`, and nothing else.
pub open spec fn type_options(attrs: Seq<AttributeView>) -> Result<
    DeriveAttributeView,
    DiagnosticView,
> {
    match parsed("ownable"@, attrs) {
        Err(e) => Err(e),
        Ok(entries) => match flag(entries, "clone"@) {
            Err(e) => Err(e),
            Ok(clone) => {
                let entries = without(entries, "clone"@);
                match flag(entries, "function"@) {
                    Err(e) => Err(e),
                    Ok(function) => {
                        let entries = without(entries, "function"@);
                        match reference(entries) {
                            Err(e) => Err(e),
                            Ok((references, reference_span)) => match leftover(
                                without(entries, "reference"@),
                            ) {
                                Some(e) => Err(e),
                                None => Ok(
                                    DeriveAttributeView {
                                        references,
                                        reference_span,
                                        clone,
                                        function,
                                    },
                                ),
                            },
                        }
                    },
                }
            },
        }
    }
}

/// The lifetimes among `params` that `references` holds (`kept` is true),
/// or those that it does not hold (`kept` is false), in their order.
pub open spec fn class(
    params: Seq<GenericParamView>,
    references: Seq<Seq<char>>,
    kept: bool,
) -> Seq<Seq<char>>
    decreases params.len(),
{
    if params.len() == 0 {
        Seq::empty()
    } else {
        let before = class(params.drop_last(), references, kept);
        match params.last() {
            GenericParamView::Lifetime(l) => if references.contains(l.lifetime) == kept {
                before.push(l.lifetime)
            } else {
                before
            },
            _ => before,
        }
    }
}

/// Whether `piece` is written as a lifetime: an apostrophe and a name.
pub open spec fn is_lifetime(piece: Seq<char>) -> bool {
    piece.len() > 0 && piece[0] == '\''
}

/// Whether each of the comma separated pieces of a value is written as a
/// lifetime, white space aside.
pub open spec fn all_lifetimes(pieces: Seq<Seq<char>>) -> bool {
    forall|i: int| 0 <= i < pieces.len() ==> is_lifetime(trim(#[trigger] pieces[i]))
}

/// The names in a comma separated list of lifetimes.
pub open spec fn lifetime_names(pieces: Seq<Seq<char>>) -> Seq<Seq<char>> {
    Seq::new(pieces.len(), |i: int| trim(pieces[i]).drop_first())
}

/// The candidate for a new lifetime name that has `n` characters.
pub open spec fn candidate(n: int) -> Seq<char> {
    "ownable"@.take(n)
}

/// Whether the lifetime `name` is in use: `references` holds it, or
/// `generics` declares it.
pub open spec fn taken(references: Seq<Seq<char>>, generics: GenericsView, name: Seq<char>) -> bool {
    references.contains(name) || generics.declares(name)
}

/// The shortest candidate of at least `n` characters that is not in use.
pub open spec fn first_free(references: Seq<Seq<char>>, generics: GenericsView, n: int) -> Option<
    Seq<char>,
>
    decreases 8 - n,
{
    if n < 1 || n > 7 {
        None
    } else if !taken(references, generics, candidate(n)) {
        Some(candidate(n))
    } else {
        first_free(references, generics, n + 1)
    }
}

/// What is reported for each lifetime of `references` that `generics` does
/// not declare, in their order.
pub open spec fn undeclared(
    references: Seq<Seq<char>>,
    generics: GenericsView,
    span: Span,
) -> Seq<DiagnosticView>
    decreases references.len(),
{
    if references.len() == 0 {
        Seq::empty()
    } else {
        let before = undeclared(references.drop_last(), generics, span);
        if generics.declares(references.last()) {
            before
        } else {
            before.push(
                problem(
                    span,
                    ErrorKind::UndeclaredLifetime,
                    "lifetime \"'"@ + references.last() + "\" is not used"@,
                ),
            )
        }
    }
}

impl GenericsView {
    /// Whether the parameter list declares the lifetime `name`.
    pub open spec fn declares(self, name: Seq<char>) -> bool {
        exists|i: int| 0 <= i < self.params.len() && (#[trigger] self.params[i]).declares(name)
    }
}

impl GenericParamView {
    /// Whether this parameter is the lifetime `name`.
    pub open spec fn declares(self, name: Seq<char>) -> bool {
        match self {
            GenericParamView::Lifetime(l) => l.lifetime == name,
            _ => false,
        }
    }
}

impl LifetimesAttribute {
    /// No lifetimes.
    pub fn empty() -> (list: LifetimesAttribute)
        ensures
            list.0.deep_view() == Seq::<Seq<char>>::empty(),
    {
        let list = LifetimesAttribute(Vec::new());
        assert(list.0.deep_view() =~= Seq::<Seq<char>>::empty());
        list
    }

    /// Reads the value of `reference`: lifetimes, separated by commas.
    /// `span` is the place of the value.
    pub fn from_string(value: &str, span: Span) -> (r: Result<LifetimesAttribute, Diagnostic>)
        ensures
            match r {
                Ok(list) => all_lifetimes(split(value@, ',')) && list.0.deep_view()
                    == lifetime_names(split(value@, ',')),
                Err(d) => !all_lifetimes(split(value@, ',')) && d@ == problem(
                    span,
                    ErrorKind::MalformedValue,
                    "not a lifetime"@,
                ),
            },
    {
        let pieces = split_text(value, ',');
        let mut list: Vec<String> = Vec::new();
        let mut i: usize = 0;
        while i < pieces.len()
            invariant
                i <= pieces.len(),
                pieces.deep_view() == split(value@, ','),
                all_lifetimes(pieces.deep_view().take(i as int)),
                list.deep_view() == lifetime_names(pieces.deep_view().take(i as int)),
            decreases pieces.len() - i,
        {
            let piece = trim_text(pieces[i].as_str());
            let n = piece.unicode_len();
            assert(pieces.deep_view()[i as int] == pieces[i as int]@);
            if n == 0 || piece.get_char(0) != '\'' {
                return Err(Diagnostic::new(span, ErrorKind::MalformedValue, "not a lifetime"));
            }
            let ghost before = list.deep_view();
            list.push(piece.substring_char(1, n).to_owned());
            proof {
                assert(piece@.subrange(1, n as int) == piece@.drop_first());
                assert(pieces.deep_view().take(i + 1) == pieces.deep_view().take(i as int).push(
                    pieces[i as int]@,
                ));
                assert(list.deep_view() == before.push(piece@.drop_first()));
                assert(list.deep_view() == lifetime_names(pieces.deep_view().take(i + 1)));
            }
            i += 1;
        }
        proof {
            assert(pieces.deep_view().take(pieces.len() as int) == pieces.deep_view());
        }
        Ok(LifetimesAttribute(list))
    }
}

impl DeriveAttribute {
    /// The lifetimes that are never rewritten.
    pub open spec fn references(self) -> Seq<Seq<char>> {
        self.reference_lifetime.0.deep_view()
    }

    /// Whether the convenience method is generated: it is, unless the
    /// option says otherwise.
    pub open spec fn wants_function(self) -> bool {
        self.function != Some(false)
    }

    /// The options of a type without attributes.
    pub fn new() -> (attribute: DeriveAttribute)
        ensures
            attribute.references() == Seq::<Seq<char>>::empty(),
            attribute.reference_span == Span::call_site(),
            attribute.clone is None,
            attribute.function is None,
    {
        DeriveAttribute {
            reference_lifetime: LifetimesAttribute::empty(),
            reference_span: Span::call_site(),
            clone: None,
            function: None,
        }
    }

    /// Reads the options of a type from its attributes.
    pub fn from_derive_input(input: &DeriveInput) -> (r: Result<DeriveAttribute, Diagnostic>)
        ensures
            match r {
                Ok(attribute) => type_options(input@.attrs) == Ok::<
                    DeriveAttributeView,
                    DiagnosticView,
                >(attribute@),
                Err(d) => type_options(input@.attrs) == Err::<DeriveAttributeView, DiagnosticView>(
                    d@,
                ),
            },
    {
        let mut features = match Features::parse("ownable", &input.attrs) {
            Ok(features) => features,
            Err(d) => {
                return Err(d);
            },
        };
        let clone = match take_flag(&mut features, "clone") {
            Ok(clone) => clone,
            Err(d) => {
                return Err(d);
            },
        };
        let function = match take_flag(&mut features, "function") {
            Ok(function) => function,
            Err(d) => {
                return Err(d);
            },
        };
        let (reference_lifetime, reference_span) = match features.get("reference") {
            None => (LifetimesAttribute::empty(), Span::call_site()),
            Some(param) => {
                let value = match param.req_str() {
                    Ok(value) => value,
                    Err(d) => {
                        return Err(d);
                    },
                };
                let span = match &param.lit {
                    Some(lit) => lit.span,
                    None => param.span,
                };
                match LifetimesAttribute::from_string(value.as_str(), span) {
                    Ok(list) => (list, span),
                    Err(d) => {
                        return Err(d);
                    },
                }
            },
        };
        features.finish(DeriveAttribute { reference_lifetime, reference_span, clone, function })
    }

    /// Whether `ident` is one of the lifetimes that are never rewritten.
    pub fn is_reference_lifetime(&self, ident: &str) -> (r: bool)
        ensures
            r == self.references().contains(ident@),
    {
        let list = &self.reference_lifetime.0;
        let mut i: usize = 0;
        while i < list.len()
            invariant
                i <= list.len(),
                list.deep_view() == self.references(),
                forall|j: int| 0 <= j < i ==> list.deep_view()[j] != ident@,
            decreases list.len() - i,
        {
            assert(list.deep_view()[i as int] == list[i as int]@);
            if same(list[i].as_str(), ident) {
                assert(self.references()[i as int] == ident@);
                return true;
            }
            i += 1;
        }
        false
    }

    /// Sorts the lifetimes that `generics` declares into those that are
    /// never rewritten and those that each operation rewrites.
    pub fn classify(&self, generics: &Generics) -> (classes: Classification)
        ensures
            classes.pass_through.deep_view() == class(generics@.params, self.references(), true),
            classes.rewritable.deep_view() == class(generics@.params, self.references(), false),
    {
        let params = &generics.params;
        let mut pass_through: Vec<String> = Vec::new();
        let mut rewritable: Vec<String> = Vec::new();
        let mut i: usize = 0;
        proof {
            assert(params.deep_view().take(0) == Seq::<GenericParamView>::empty());
        }
        while i < params.len()
            invariant
                i <= params.len(),
                pass_through.deep_view() == class(
                    params.deep_view().take(i as int),
                    self.references(),
                    true,
                ),
                rewritable.deep_view() == class(
                    params.deep_view().take(i as int),
                    self.references(),
                    false,
                ),
            decreases params.len() - i,
        {
            proof {
                assert(params.deep_view().take(i + 1).drop_last() == params.deep_view().take(
                    i as int,
                ));
                assert(params.deep_view().take(i + 1).last() == params@[i as int]@);
            }
            if let GenericParam::Lifetime(l) = &params[i] {
                let ghost kept = pass_through.deep_view();
                let ghost others = rewritable.deep_view();
                if self.is_reference_lifetime(l.lifetime.as_str()) {
                    pass_through.push(l.lifetime.clone());
                    assert(pass_through.deep_view() == kept.push(l.lifetime@));
                } else {
                    rewritable.push(l.lifetime.clone());
                    assert(rewritable.deep_view() == others.push(l.lifetime@));
                }
            }
            i += 1;
        }
        proof {
            assert(params.deep_view().take(params@.len() as int) == params.deep_view());
        }
        Classification { pass_through, rewritable }
    }

    /// Picks the lifetime that `ToBorrowed` is implemented for: the shortest
    /// of `o`, `ow`, `own`, up to `ownable`, that is neither one of the
    /// lifetimes that are never rewritten nor a lifetime that `generics`
    /// declares.
    pub fn new_lifetime(&self, generics: &Generics) -> (r: Result<String, Diagnostic>)
        ensures
            match r {
                Ok(lifetime) => first_free(self.references(), generics@, 1) == Some(lifetime@),
                Err(d) => first_free(self.references(), generics@, 1) is None && d@ == problem(
                    Span::call_site(),
                    ErrorKind::LifetimeExhausted,
                    "all of the following lifetimes are already used: 'o, 'ow, .. 'ownable"@,
                ),
            },
    {
        let word = "ownable";
        proof {
            reveal_strlit("ownable");
        }
        let mut n: usize = 1;
        while n <= 7
            invariant
                1 <= n <= 8,
                word@ == "ownable"@,
                word@.len() == 7,
                word.is_ascii(),
                first_free(self.references(), generics@, 1) == first_free(
                    self.references(),
                    generics@,
                    n as int,
                ),
            decreases 8 - n,
        {
            let name = word.substring_ascii(0, n);
            if !self.is_reference_lifetime(name) && !DeriveAttribute::contains_lifetime(
                generics,
                name,
            ) {
                return Ok(name.to_owned());
            }
            n += 1;
        }
        Err(
            Diagnostic::new(
                Span::call_site(),
                ErrorKind::LifetimeExhausted,
                "all of the following lifetimes are already used: 'o, 'ow, .. 'ownable",
            ),
        )
    }

    /// Whether `generics` declares the lifetime `lifetime`.
    pub fn contains_lifetime(generics: &Generics, lifetime: &str) -> (r: bool)
        ensures
            r == generics@.declares(lifetime@),
    {
        let mut i: usize = 0;
        while i < generics.params.len()
            invariant
                i <= generics.params.len(),
                forall|j: int| 0 <= j < i ==> !(#[trigger] generics@.params[j]).declares(lifetime@),
            decreases generics.params.len() - i,
        {
            assert(generics@.params[i as int] == generics.params@[i as int]@);
            match &generics.params[i] {
                GenericParam::Lifetime(l) => {
                    if same(l.lifetime.as_str(), lifetime) {
                        return true;
                    }
                },
                GenericParam::Type(_) => {},
                GenericParam::Const(_) => {},
            }
            i += 1;
        }
        false
    }
}

impl Derive<'_> {
    /// Reports each lifetime of `reference` that the type does not declare.
    pub fn verify_lifetimes(&self) -> (errors: Vec<Diagnostic>)
        ensures
            errors.deep_view() == undeclared(
                self.attribute.references(),
                self.input@.generics,
                self.attribute.reference_span,
            ),
    {
        let generics = &self.input.generics;
        let span = self.attribute.reference_span;
        let list = &self.attribute.reference_lifetime.0;
        let mut errors: Vec<Diagnostic> = Vec::new();
        let mut i: usize = 0;
        proof {
            assert(list.deep_view().take(0) == Seq::<Seq<char>>::empty());
        }
        while i < list.len()
            invariant
                i <= list.len(),
                errors.deep_view() == undeclared(list.deep_view().take(i as int), generics@, span),
            decreases list.len() - i,
        {
            proof {
                let now = list.deep_view().take(i + 1);
                assert(now.drop_last() == list.deep_view().take(i as int));
                assert(now.last() == list[i as int]@);
            }
            if !DeriveAttribute::contains_lifetime(generics, list[i].as_str()) {
                let mut message = String::from_str("lifetime \"'");
                message.append(list[i].as_str());
                message.append("\" is not used");
                errors.push(Diagnostic { span, kind: ErrorKind::UndeclaredLifetime, message });
            }
            i += 1;
        }
        proof {
            assert(list.deep_view().take(list.len() as int) == list.deep_view());
        }
        errors
    }
}

/// Takes the flag named `key` out of `features`.
fn take_flag(features: &mut Features, key: &str) -> (r: Result<Option<bool>, Diagnostic>)
    ensures
        final(features)@ == without(old(features)@, key@),
        match r {
            Ok(value) => flag(old(features)@, key@) == Ok::<Option<bool>, DiagnosticView>(value),
            Err(d) => flag(old(features)@, key@) == Err::<Option<bool>, DiagnosticView>(d@),
        },
{
    match features.get(key) {
        None => Ok(None),
        Some(param) => match param.get_bool() {
            Ok(b) => Ok(Some(b)),
            Err(d) => Err(d),
        },
    }
}

impl FieldAttribute {
    /// Reads the options of a variant or of a field from its attributes.
    pub fn new(attrs: &Vec<Attribute>) -> (r: Result<FieldAttribute, Diagnostic>)
        ensures
            match r {
                Ok(attribute) => field_options(attrs.deep_view()) == Ok::<
                    FieldAttribute,
                    DiagnosticView,
                >(attribute),
                Err(d) => field_options(attrs.deep_view()) == Err::<FieldAttribute, DiagnosticView>(
                    d@,
                ),
            },
    {
        let mut features = match Features::parse("ownable", attrs) {
            Ok(features) => features,
            Err(d) => {
                return Err(d);
            },
        };
        let clone = match take_flag(&mut features, "clone") {
            Ok(clone) => clone,
            Err(d) => {
                return Err(d);
            },
        };
        features.finish(FieldAttribute { clone })
    }
}

/// Fills what a scope leaves open from the scope around it.
pub trait OrAssign<Rhs> {
    fn or_assign(&mut self, rhs: Rhs);
}

impl OrAssign<&FieldAttribute> for FieldAttribute {
    fn or_assign(&mut self, rhs: &FieldAttribute)
        ensures
            final(self).clone == or(old(self).clone, rhs.clone),
    {
        if self.clone.is_none() {
            self.clone = rhs.clone;
        }
    }
}

impl OrAssign<&DeriveAttribute> for FieldAttribute {
    fn or_assign(&mut self, rhs: &DeriveAttribute)
        ensures
            final(self).clone == or(old(self).clone, rhs.clone),
    {
        if self.clone.is_none() {
            self.clone = rhs.clone;
        }
    }
}

} // verus!
