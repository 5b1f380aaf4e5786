//! The implementation around the body: generic parameters, the type with
//! its lifetimes rewritten, the `where` clause and the convenience method.

use crate::attribute::first_free;
use crate::common::plain;
use crate::derive::{Derive, DeriveView};
use crate::diagnostic::{delivers, problem, Diagnostic, DiagnosticView, ErrorKind};
use crate::mode::Mode;
use crate::model::{
    FieldView, FieldsView, GenericParamView, GenericsView, TypeParamBoundView, TypeParamView,
    WherePredicateView,
};
use crate::syntax::{GenericParam, Generics, Span, TypeParamBound, WherePredicate};
use crate::text::{angle, angled, join, joined, quote, quoted};
use vstd::prelude::*;
use vstd::string::StringExecFns;

verus! {

/// A lifetime as it is written: an apostrophe and the name.
pub open spec fn lifetime_text(name: Seq<char>) -> Seq<char> {
    "'"@ + name
}

/// The lifetimes `names` as they are written.
pub open spec fn lifetime_texts(names: Seq<Seq<char>>) -> Seq<Seq<char>> {
    Seq::new(names.len(), |i: int| lifetime_text(names[i]))
}

/// A predicate: what is bounded, a colon, and the bounds with `+` between
/// them.
pub open spec fn predicate_text(left: Seq<char>, bounds: Seq<Seq<char>>) -> Seq<char> {
    left + ": "@ + joined(bounds, " + "@)
}

/// The view of a text that may be absent.
pub open spec fn text_of(text: Option<&str>) -> Option<Seq<char>> {
    match text {
        Some(t) => Some(t@),
        None => None,
    }
}

/// The bound that asks the type parameter `param` for the operation
/// itself. For `ToBorrowed` the result is a value of the parameter by the
/// trait's own terms. For the other two the bound says so: the
/// implementation puts the result in the place of a value of the parameter.
pub open spec fn operation_bound(mode: Mode, lifetime: Seq<char>, param: Seq<char>) -> Seq<char> {
    match mode {
        Mode::ToBorrowed => mode.name_text() + "<"@ + lifetime_text(lifetime) + ">"@,
        _ => mode.name_text() + "<Owned = "@ + param + ">"@,
    }
}

/// The attributes of the convenience method for `mode`.
pub open spec fn method_attributes(mode: Mode) -> Seq<char> {
    "#[doc = "@ + quote(mode.doc_text()) + "] #[inline(always)] "@
}

/// The fields of a struct or of a variant, named or not.
pub open spec fn fields_of(fields: FieldsView) -> Seq<FieldView> {
    match fields {
        FieldsView::Named(named) => plain(named),
        FieldsView::Unnamed(unnamed) => unnamed,
        FieldsView::Unit => Seq::empty(),
    }
}

impl GenericsView {
    /// Whether the parameter list declares a lifetime.
    pub open spec fn has_lifetime(self) -> bool {
        exists|i: int| 0 <= i < self.params.len() && (#[trigger] self.params[i]) is Lifetime
    }

    /// Whether the parameter list declares a type parameter.
    pub open spec fn has_type(self) -> bool {
        exists|i: int| 0 <= i < self.params.len() && (#[trigger] self.params[i]) is Type
    }
}

impl DeriveView {
    /// What one generic parameter contributes to a list of generics. With
    /// `lifetime` empty the list declares the parameters of the
    /// implementation: a lifetime that is never rewritten stays, and any
    /// other lifetime leaves. With `lifetime` set the list holds the
    /// arguments of the type: a lifetime that is never rewritten stays, and
    /// `lifetime` stands for any other. Lifetimes and type parameters stand
    /// by their names alone, for their bounds stand in the `where` clause; a
    /// constant is declared with its type.
    pub open spec fn generic_item(
        self,
        param: GenericParamView,
        lifetime: Option<Seq<char>>,
    ) -> Option<Seq<char>> {
        match param {
            GenericParamView::Lifetime(l) => if self.attribute.references.contains(l.lifetime) {
                Some(lifetime_text(l.lifetime))
            } else {
                match lifetime {
                    None => None,
                    Some(new) => Some(lifetime_text(new)),
                }
            },
            GenericParamView::Type(t) => Some(t.ident),
            GenericParamView::Const(c) => Some(
                match lifetime {
                    None => "const "@ + c.ident + ": "@ + c.ty,
                    Some(_) => c.ident,
                },
            ),
        }
    }

    /// What the parameters `params` contribute to a list of generics.
    pub open spec fn generics_items(
        self,
        params: Seq<GenericParamView>,
        lifetime: Option<Seq<char>>,
    ) -> Seq<Seq<char>>
        decreases params.len(),
    {
        if params.len() == 0 {
            Seq::empty()
        } else {
            let before = self.generics_items(params.drop_last(), lifetime);
            match self.generic_item(params.last(), lifetime) {
                Some(item) => before.push(item),
                None => before,
            }
        }
    }

    /// The arguments of the type with `lifetime` in place of every lifetime
    /// that may be rewritten, between angle brackets.
    pub open spec fn arguments(self, lifetime: Seq<char>) -> Seq<char> {
        angle(self.generics_items(self.input.generics.params, Some(lifetime)))
    }

    /// The lifetime `lifetime` if it is never rewritten, and `new` if it
    /// is.
    pub open spec fn kept(self, lifetime: Seq<char>, new: Seq<char>) -> Seq<char> {
        if self.attribute.references.contains(lifetime) {
            lifetime
        } else {
            new
        }
    }

    /// One bound, with `new` in place of a lifetime that may be rewritten.
    pub open spec fn bound_text(self, bound: TypeParamBoundView, new: Seq<char>) -> Seq<char> {
        match bound {
            TypeParamBoundView::Lifetime(l) => lifetime_text(self.kept(l, new)),
            TypeParamBoundView::Maybe(t) => "?"@ + t,
            TypeParamBoundView::Trait(t) => t,
        }
    }

    /// The bounds `bounds`, each rewritten.
    pub open spec fn bound_texts(self, bounds: Seq<TypeParamBoundView>, new: Seq<char>) -> Seq<
        Seq<char>,
    > {
        Seq::new(bounds.len(), |i: int| self.bound_text(bounds[i], new))
    }

    /// The lifetimes `bounds`, each rewritten and written as a lifetime.
    pub open spec fn outlives_texts(self, bounds: Seq<Seq<char>>, new: Seq<char>) -> Seq<
        Seq<char>,
    > {
        Seq::new(bounds.len(), |i: int| lifetime_text(self.kept(bounds[i], new)))
    }

    /// One predicate of the `where` clause, rewritten. A predicate on a
    /// lifetime stays if that lifetime is never rewritten, and leaves
    /// otherwise.
    pub open spec fn rewritten(self, predicate: WherePredicateView, new: Seq<char>) -> Option<
        Seq<char>,
    > {
        match predicate {
            WherePredicateView::Lifetime { lifetime, outlives } => if self.attribute.references.contains(
                lifetime,
            ) {
                Some(predicate_text(lifetime_text(lifetime), self.outlives_texts(outlives, new)))
            } else {
                None
            },
            WherePredicateView::Type { bounded_ty, bounds } => Some(
                predicate_text(bounded_ty, self.bound_texts(bounds, new)),
            ),
        }
    }

    /// The bounds of the predicate that stands for a type parameter: its
    /// own bounds, rewritten, and after them the operation itself, which
    /// every type parameter is asked for.
    pub open spec fn param_bounds(self, param: TypeParamView, new: Seq<char>) -> Seq<Seq<char>> {
        self.bound_texts(param.bounds, new) + seq![operation_bound(self.mode, new, param.ident)]
    }

    /// The predicate that stands for one parameter, if it has one: a type
    /// parameter always has, a lifetime has if it is never rewritten and has
    /// bounds, a constant has none. The bounds are rewritten.
    pub open spec fn param_predicate(self, param: GenericParamView, new: Seq<char>) -> Option<
        Seq<char>,
    > {
        match param {
            GenericParamView::Lifetime(l) => if self.attribute.references.contains(l.lifetime)
                && l.bounds.len() > 0 {
                Some(predicate_text(lifetime_text(l.lifetime), self.outlives_texts(l.bounds, new)))
            } else {
                None
            },
            GenericParamView::Type(t) => Some(predicate_text(t.ident, self.param_bounds(t, new))),
            GenericParamView::Const(_) => None,
        }
    }

    /// The predicates that stand for the parameters `params`, in their
    /// order.
    pub open spec fn param_predicates(self, params: Seq<GenericParamView>, new: Seq<char>) -> Seq<
        Seq<char>,
    >
        decreases params.len(),
    {
        if params.len() == 0 {
            Seq::empty()
        } else {
            let before = self.param_predicates(params.drop_last(), new);
            match self.param_predicate(params.last(), new) {
                Some(text) => before.push(text),
                None => before,
            }
        }
    }

    /// The predicates `predicates`, each rewritten, without those that
    /// leave.
    pub open spec fn clause_predicates(
        self,
        predicates: Seq<WherePredicateView>,
        new: Seq<char>,
    ) -> Seq<Seq<char>>
        decreases predicates.len(),
    {
        if predicates.len() == 0 {
            Seq::empty()
        } else {
            let before = self.clause_predicates(predicates.drop_last(), new);
            match self.rewritten(predicates.last(), new) {
                Some(text) => before.push(text),
                None => before,
            }
        }
    }

    /// The predicates of the implementation: those that stand for the
    /// parameters, then those of the type's own `where` clause.
    pub open spec fn where_items(self, new: Seq<char>) -> Seq<Seq<char>> {
        self.param_predicates(self.input.generics.params, new) + self.clause_predicates(
            self.input.generics.where_clause,
            new,
        )
    }

    /// The `where` clause of the implementation, or nothing where it has no
    /// predicate.
    pub open spec fn where_text(self, new: Seq<char>) -> Seq<char> {
        if self.where_items(new).len() == 0 {
            Seq::empty()
        } else {
            " where "@ + joined(self.where_items(new), ", "@)
        }
    }

    /// The receiver and the result of the convenience method for
    /// `ToBorrowed`. The receiver may be borrowed for any lifetime, and the
    /// result lives as long. A type parameter is asked for the operation
    /// with the lifetime `new`, so where the type has one the receiver is
    /// borrowed for `new`.
    pub open spec fn borrowed_signature(self, new: Seq<char>) -> Seq<char> {
        if self.input.generics.has_type() {
            "(&"@ + lifetime_text(new) + " self) -> "@ + self.input.ident + self.arguments(new)
        } else {
            "(&self) -> "@ + self.input.ident + self.arguments("_"@)
        }
    }

    /// The same type and options, with `ToBorrowed` as the operation.
    pub open spec fn borrowing(self) -> DeriveView {
        DeriveView { input: self.input, attribute: self.attribute, mode: Mode::ToBorrowed }
    }

    /// The implementation of `ToBorrowed` around the body `inner`, with the
    /// convenience method after it where it is wanted. `new` is the
    /// lifetime that the receiver is borrowed for.
    pub open spec fn to_borrowed_text(self, inner: Seq<char>, new: Seq<char>) -> Seq<char> {
        let this = self.borrowing();
        let definition = angle(
            seq![lifetime_text(new)] + this.generics_items(this.input.generics.params, None),
        );
        let target = this.input.ident + this.arguments(new) + this.where_text(new);
        let name = Mode::ToBorrowed.name_text();
        "impl"@ + definition + " "@ + name + "<"@ + lifetime_text(new) + "> for "@ + target
            + " { fn to_borrowed(&"@ + lifetime_text(new) + " self) -> Self { "@ + inner + " } }"@
            + (if this.attribute.function != Some(false) {
            " impl"@ + definition + " "@ + target + " { "@ + method_attributes(Mode::ToBorrowed)
                + "pub fn to_borrowed"@ + this.borrowed_signature(new) + " { "@ + name
                + "::to_borrowed(self) } }"@
        } else {
            Seq::empty()
        })
    }

    /// The implementation of `ToOwned` or `IntoOwned` around the body
    /// `inner`, with the convenience method after it where it is wanted.
    pub open spec fn in_to_owned_text(self, inner: Seq<char>) -> Seq<char> {
        let definition = angle(self.generics_items(self.input.generics.params, None));
        let target = self.input.ident + self.arguments("_"@) + self.where_text("static"@);
        let owned = self.input.ident + self.arguments("static"@);
        let name = self.mode.name_text();
        let receiver = self.mode.function_text() + "("@ + self.mode.as_ref_text() + "self)"@;
        "impl"@ + definition + " "@ + name + " for "@ + target + " { type Owned = "@ + owned
            + "; fn "@ + receiver + " -> Self::Owned { "@ + inner + " } }"@ + (
        if self.attribute.function != Some(false) {
            " impl"@ + definition + " "@ + target + " { "@ + method_attributes(self.mode) + "pub fn "@
                + receiver + " -> "@ + owned + " { "@ + name + "::"@ + self.mode.function_text()
                + "(self) } }"@
        } else {
            Seq::empty()
        })
    }

    /// What is reported of the type where `ToBorrowed` is implemented: it
    /// needs a type with a lifetime, and a name for the lifetime that the
    /// receiver is borrowed for.
    pub open spec fn to_borrowed_errors(self) -> Seq<DiagnosticView> {
        (if self.input.generics.has_lifetime() {
            Seq::empty()
        } else {
            seq![
                problem(
                    self.input.span,
                    ErrorKind::NoLifetimeToRewrite,
                    "ToBorrowed can be only derived for a struct/enum with a lifetime"@,
                ),
            ]
        }) + (if first_free(self.attribute.references, self.input.generics, 1) is Some {
            Seq::empty()
        } else {
            seq![
                problem(
                    Span::call_site(),
                    ErrorKind::LifetimeExhausted,
                    "all of the following lifetimes are already used: 'o, 'ow, .. 'ownable"@,
                ),
            ]
        })
    }

    /// What is reported of the type where an implementation is written
    /// around a body.
    pub open spec fn generate_errors(self) -> Seq<DiagnosticView> {
        if self.mode == Mode::ToBorrowed {
            self.to_borrowed_errors()
        } else {
            Seq::empty()
        }
    }

    /// The implementation around the body `inner`.
    pub open spec fn generate_text(self, inner: Seq<char>) -> Seq<char> {
        if self.mode == Mode::ToBorrowed {
            self.to_borrowed_text(inner, first_free(self.attribute.references, self.input.generics, 1)->0)
        } else {
            self.in_to_owned_text(inner)
        }
    }
}

impl Derive<'_> {
    /// Writes the implementation around the body `inner`.
    pub fn generate(&self, inner: &str) -> (r: Result<String, Vec<Diagnostic>>)
        ensures
            delivers(r, self@.generate_text(inner@), self@.generate_errors()),
    {
        match self.mode {
            Mode::ToBorrowed => self.generate_mode_to_borrowed(inner),
            Mode::ToOwned | Mode::IntoOwned => Ok(self.generate_mode_in_to_owned(inner)),
        }
    }

    /// Writes the implementation of `ToBorrowed` around the body `inner`.
    pub fn generate_mode_to_borrowed(&self, inner: &str) -> (r: Result<String, Vec<Diagnostic>>)
        ensures
            delivers(
                r,
                self@.to_borrowed_text(inner@, first_free(self.attribute.references(), self.input@.generics, 1)->0),
                self@.to_borrowed_errors(),
            ),
    {
        let this = Derive { input: self.input, attribute: self.attribute, mode: Mode::ToBorrowed };
        assert(this@ == self@.borrowing());
        let mut errors: Vec<Diagnostic> = Vec::new();
        if !self.input.generics.declares_lifetime() {
            errors.push(
                Diagnostic::new(
                    self.input.span,
                    ErrorKind::NoLifetimeToRewrite,
                    "ToBorrowed can be only derived for a struct/enum with a lifetime",
                ),
            );
        }
        let lifetime_our = match self.attribute.new_lifetime(&self.input.generics) {
            Ok(lifetime) => lifetime,
            Err(d) => {
                errors.push(d);
                proof {
                    assert(errors.deep_view() == self@.to_borrowed_errors());
                }
                return Err(errors);
            },
        };
        if errors.len() > 0 {
            proof {
                assert(errors.deep_view() == self@.to_borrowed_errors());
            }
            return Err(errors);
        }
        let ghost new = lifetime_our@;
        let mut quoted_our = String::from_str("'");
        quoted_our.append(lifetime_our.as_str());

        let mut items: Vec<String> = Vec::new();
        items.push(quoted_our.clone());
        let mut declared = this.generate_generics(None);
        let ghost declared_items = declared.deep_view();
        items.append(&mut declared);
        assert(items.deep_view() == seq![lifetime_text(new)] + declared_items);
        let definition = angled(&items);

        let mut target = this.input.ident.clone();
        target.append(angled(&this.generate_generics(Some(lifetime_our.as_str()))).as_str());
        target.append(this.generate_where(lifetime_our.as_str()).as_str());
        let name = Mode::ToBorrowed.name();

        let mut text = String::from_str("impl");
        text.append(definition.as_str());
        text.append(" ");
        text.append(name);
        text.append("<");
        text.append(quoted_our.as_str());
        text.append("> for ");
        text.append(target.as_str());
        text.append(" { fn to_borrowed(&");
        text.append(quoted_our.as_str());
        text.append(" self) -> Self { ");
        text.append(inner);
        text.append(" } }");
        let mut function = String::new();
        if this.wants_function() {
            function.append(" impl");
            function.append(definition.as_str());
            function.append(" ");
            function.append(target.as_str());
            function.append(" { ");
            function.append(attributes(Mode::ToBorrowed).as_str());
            function.append("pub fn to_borrowed");
            function.append(this.borrowed_signature(lifetime_our.as_str()).as_str());
            function.append(" { ");
            function.append(name);
            function.append("::to_borrowed(self) } }");
        }
        text.append(function.as_str());
        Ok(text)
    }

    /// Writes the implementation of `ToOwned` or of `IntoOwned` around the
    /// body `inner`.
    pub fn generate_mode_in_to_owned(&self, inner: &str) -> (text: String)
        ensures
            text@ == self@.in_to_owned_text(inner@),
    {
        let definition = angled(&self.generate_generics(None));
        let mut target = self.input.ident.clone();
        target.append(angled(&self.generate_generics(Some("_"))).as_str());
        target.append(self.generate_where("static").as_str());
        let mut owned = self.input.ident.clone();
        owned.append(angled(&self.generate_generics(Some("static"))).as_str());
        let name = self.mode.name();
        let mut receiver = String::from_str(self.mode.function());
        receiver.append("(");
        receiver.append(self.mode.as_ref());
        receiver.append("self)");

        let mut text = String::from_str("impl");
        text.append(definition.as_str());
        text.append(" ");
        text.append(name);
        text.append(" for ");
        text.append(target.as_str());
        text.append(" { type Owned = ");
        text.append(owned.as_str());
        text.append("; fn ");
        text.append(receiver.as_str());
        text.append(" -> Self::Owned { ");
        text.append(inner);
        text.append(" } }");
        let mut function = String::new();
        if self.wants_function() {
            function.append(" impl");
            function.append(definition.as_str());
            function.append(" ");
            function.append(target.as_str());
            function.append(" { ");
            function.append(attributes(self.mode).as_str());
            function.append("pub fn ");
            function.append(receiver.as_str());
            function.append(" -> ");
            function.append(owned.as_str());
            function.append(" { ");
            function.append(name);
            function.append("::");
            function.append(self.mode.function());
            function.append("(self) } }");
        }
        text.append(function.as_str());
        text
    }

    /// Writes the receiver and the result of the convenience method for
    /// `ToBorrowed`.
    fn borrowed_signature(&self, lt: &str) -> (text: String)
        ensures
            text@ == self@.borrowed_signature(lt@),
    {
        let mut text = String::new();
        if self.input.generics.declares_type() {
            text.append("(&");
            text.append(lifetime(lt).as_str());
            text.append(" self) -> ");
            text.append(self.input.ident.as_str());
            text.append(angled(&self.generate_generics(Some(lt))).as_str());
        } else {
            text.append("(&self) -> ");
            text.append(self.input.ident.as_str());
            text.append(angled(&self.generate_generics(Some("_"))).as_str());
        }
        text
    }

    /// Whether the convenience method is generated.
    pub fn wants_function(&self) -> (wanted: bool)
        ensures
            wanted == (self.attribute.function != Some(false)),
    {
        match self.attribute.function {
            Some(false) => false,
            _ => true,
        }
    }

    /// Lists the generics of the implementation. With `lt` empty these are
    /// the parameters that the implementation declares; with `lt` set they
    /// are the arguments of the type, with `lt` in place of every lifetime
    /// that may be rewritten.
    pub fn generate_generics(&self, lt: Option<&str>) -> (items: Vec<String>)
        ensures
            items.deep_view() == self@.generics_items(self@.input.generics.params, text_of(lt)),
    {
        let params = &self.input.generics.params;
        let mut items: Vec<String> = Vec::new();
        let mut i: usize = 0;
        proof {
            assert(params.deep_view().take(0) == Seq::<GenericParamView>::empty());
        }
        while i < params.len()
            invariant
                i <= params.len(),
                items.deep_view() == self@.generics_items(
                    params.deep_view().take(i as int),
                    text_of(lt),
                ),
            decreases params.len() - i,
        {
            proof {
                assert(params.deep_view().take(i + 1).drop_last() == params.deep_view().take(
                    i as int,
                ));
                assert(params.deep_view().take(i + 1).last() == params@[i as int]@);
            }
            let ghost before = items.deep_view();
            match &params[i] {
                GenericParam::Lifetime(l) => {
                    if self.attribute.is_reference_lifetime(l.lifetime.as_str()) {
                        let item = lifetime(l.lifetime.as_str());
                        items.push(item);
                        assert(items.deep_view() == before.push(item@));
                    } else if let Some(new) = lt {
                        let item = lifetime(new);
                        items.push(item);
                        assert(items.deep_view() == before.push(item@));
                    }
                },
                GenericParam::Type(t) => {
                    let item = t.ident.clone();
                    items.push(item);
                    assert(items.deep_view() == before.push(item@));
                },
                GenericParam::Const(c) => {
                    let item = match lt {
                        None => {
                            let mut item = String::from_str("const ");
                            item.append(c.ident.as_str());
                            item.append(": ");
                            item.append(c.ty.as_str());
                            item
                        },
                        Some(_) => c.ident.clone(),
                    };
                    items.push(item);
                    assert(items.deep_view() == before.push(item@));
                },
            }
            i += 1;
        }
        proof {
            assert(params.deep_view().take(params@.len() as int) == params.deep_view());
        }
        items
    }

    /// Writes the `where` clause of the implementation, with `lt` in place
    /// of every lifetime that may be rewritten.
    pub fn generate_where(&self, lt: &str) -> (text: String)
        ensures
            text@ == self@.where_text(lt@),
    {
        let params = &self.input.generics.params;
        let mut items: Vec<String> = Vec::new();
        let mut i: usize = 0;
        proof {
            assert(params.deep_view().take(0) == Seq::<GenericParamView>::empty());
        }
        while i < params.len()
            invariant
                i <= params.len(),
                items.deep_view() == self@.param_predicates(params.deep_view().take(i as int), lt@),
            decreases params.len() - i,
        {
            proof {
                assert(params.deep_view().take(i + 1).drop_last() == params.deep_view().take(
                    i as int,
                ));
                assert(params.deep_view().take(i + 1).last() == params@[i as int]@);
            }
            let ghost before = items.deep_view();
            match &params[i] {
                GenericParam::Type(t) => {
                    let mut bounds = self.bounds(&t.bounds, lt);
                    let ghost own = bounds.deep_view();
                    let bound = self.operation_bound(lt, t.ident.as_str());
                    bounds.push(bound);
                    assert(bounds.deep_view() == own + seq![bound@]);
                    let item = predicate(t.ident.as_str(), &bounds);
                    items.push(item);
                    assert(items.deep_view() == before.push(item@));
                },
                GenericParam::Lifetime(l) => {
                    if self.attribute.is_reference_lifetime(l.lifetime.as_str()) && l.bounds.len()
                        > 0 {
                        let bounds = self.outlives(&l.bounds, lt);
                        let item = predicate(lifetime(l.lifetime.as_str()).as_str(), &bounds);
                        items.push(item);
                        assert(items.deep_view() == before.push(item@));
                    }
                },
                GenericParam::Const(_) => {},
            }
            i += 1;
        }
        proof {
            assert(params.deep_view().take(params@.len() as int) == params.deep_view());
        }
        let clause = &self.input.generics.where_clause;
        let ghost first = items.deep_view();
        let mut k: usize = 0;
        proof {
            assert(clause.deep_view().take(0) == Seq::<WherePredicateView>::empty());
            assert(first + Seq::<Seq<char>>::empty() == first);
        }
        while k < clause.len()
            invariant
                k <= clause.len(),
                items.deep_view() == first + self@.clause_predicates(
                    clause.deep_view().take(k as int),
                    lt@,
                ),
            decreases clause.len() - k,
        {
            proof {
                assert(clause.deep_view().take(k + 1).drop_last() == clause.deep_view().take(
                    k as int,
                ));
                assert(clause.deep_view().take(k + 1).last() == clause@[k as int]@);
            }
            let ghost before = items.deep_view();
            match self.set_lifetime(lt, &clause[k]) {
                Some(item) => {
                    items.push(item);
                    assert(items.deep_view() == before.push(item@));
                },
                None => {},
            }
            k += 1;
        }
        proof {
            assert(clause.deep_view().take(clause@.len() as int) == clause.deep_view());
        }
        let mut text = String::new();
        if items.len() > 0 {
            text.append(" where ");
            text.append(join(&items, ", ").as_str());
        }
        text
    }

    /// Rewrites one predicate of the `where` clause, with `lt` in place of
    /// every lifetime that may be rewritten. A predicate on such a lifetime
    /// leaves.
    pub fn set_lifetime(&self, lt: &str, wp: &WherePredicate) -> (text: Option<String>)
        ensures
            match text {
                Some(t) => self@.rewritten(wp@, lt@) == Some(t@),
                None => self@.rewritten(wp@, lt@) is None,
            },
    {
        match wp {
            WherePredicate::Lifetime { lifetime: l, outlives } => {
                if self.attribute.is_reference_lifetime(l.as_str()) {
                    let bounds = self.outlives(outlives, lt);
                    Some(predicate(lifetime(l.as_str()).as_str(), &bounds))
                } else {
                    None
                }
            },
            WherePredicate::Type { bounded_ty, bounds } => {
                Some(predicate(bounded_ty.as_str(), &self.bounds(bounds, lt)))
            },
        }
    }

    /// Rewrites the lifetimes that a lifetime has to outlive, with `lt` in
    /// place of every lifetime that may be rewritten.
    fn outlives(&self, outlives: &Vec<String>, lt: &str) -> (bounds: Vec<String>)
        ensures
            bounds.deep_view() == self@.outlives_texts(outlives.deep_view(), lt@),
    {
        let mut bounds: Vec<String> = Vec::new();
        let mut i: usize = 0;
        while i < outlives.len()
            invariant
                i <= outlives.len(),
                bounds.len() == i,
                forall|j: int|
                    0 <= j < i ==> (#[trigger] bounds[j])@ == lifetime_text(
                        self@.kept(outlives@[j]@, lt@),
                    ),
            decreases outlives.len() - i,
        {
            let kept = self.reference_lifetime_or_clone(outlives[i].as_str(), lt);
            bounds.push(lifetime(kept.as_str()));
            i += 1;
        }
        assert(bounds.deep_view() == self@.outlives_texts(outlives.deep_view(), lt@));
        bounds
    }

    /// Rewrites a list of bounds, with `lt` in place of every lifetime that
    /// may be rewritten.
    fn bounds(&self, bounds: &Vec<TypeParamBound>, lt: &str) -> (texts: Vec<String>)
        ensures
            texts.deep_view() == self@.bound_texts(bounds.deep_view(), lt@),
    {
        let mut texts: Vec<String> = Vec::new();
        let mut i: usize = 0;
        while i < bounds.len()
            invariant
                i <= bounds.len(),
                texts.len() == i,
                forall|j: int|
                    0 <= j < i ==> (#[trigger] texts[j])@ == self@.bound_text(bounds@[j]@, lt@),
            decreases bounds.len() - i,
        {
            let text = match &bounds[i] {
                TypeParamBound::Lifetime(l) => lifetime(
                    self.reference_lifetime_or_clone(l.as_str(), lt).as_str(),
                ),
                TypeParamBound::Maybe(t) => {
                    let mut text = String::from_str("?");
                    text.append(t.as_str());
                    text
                },
                TypeParamBound::Trait(t) => t.clone(),
            };
            texts.push(text);
            i += 1;
        }
        assert(texts.deep_view() == self@.bound_texts(bounds.deep_view(), lt@));
        texts
    }

    /// The lifetime `l` if it is never rewritten, and `lt` if it is.
    pub fn reference_lifetime_or_clone(&self, l: &str, lt: &str) -> (kept: String)
        ensures
            kept@ == self@.kept(l@, lt@),
    {
        if self.attribute.is_reference_lifetime(l) {
            l.to_owned()
        } else {
            lt.to_owned()
        }
    }

    /// Writes the bound that asks a type parameter for the operation
    /// itself.
    fn operation_bound(&self, lt: &str, param: &str) -> (text: String)
        ensures
            text@ == operation_bound(self.mode, lt@, param@),
    {
        let mut text = String::from_str(self.mode.name());
        if let Mode::ToBorrowed = self.mode {
            text.append("<");
            text.append(lifetime(lt).as_str());
            text.append(">");
        } else {
            text.append("<Owned = ");
            text.append(param);
            text.append(">");
        }
        text
    }

}

impl Generics {
    /// Whether the parameter list declares a lifetime.
    pub fn declares_lifetime(&self) -> (r: bool)
        ensures
            r == self@.has_lifetime(),
    {
        let mut i: usize = 0;
        while i < self.params.len()
            invariant
                i <= self.params.len(),
                forall|j: int| 0 <= j < i ==> !((#[trigger] self@.params[j]) is Lifetime),
            decreases self.params.len() - i,
        {
            assert(self@.params[i as int] == self.params@[i as int]@);
            if let GenericParam::Lifetime(_) = &self.params[i] {
                return true;
            }
            i += 1;
        }
        false
    }

    /// Whether the parameter list declares a type parameter.
    pub fn declares_type(&self) -> (r: bool)
        ensures
            r == self@.has_type(),
    {
        let mut i: usize = 0;
        while i < self.params.len()
            invariant
                i <= self.params.len(),
                forall|j: int| 0 <= j < i ==> !((#[trigger] self@.params[j]) is Type),
            decreases self.params.len() - i,
        {
            assert(self@.params[i as int] == self.params@[i as int]@);
            if let GenericParam::Type(_) = &self.params[i] {
                return true;
            }
            i += 1;
        }
        false
    }
}

/// Writes the attributes of the convenience method for `mode`.
fn attributes(mode: Mode) -> (text: String)
    ensures
        text@ == method_attributes(mode),
{
    let mut text = String::from_str("#[doc = ");
    text.append(quoted(mode.doc()).as_str());
    text.append("] #[inline(always)] ");
    text
}

/// Writes a lifetime: an apostrophe and the name.
pub fn lifetime(name: &str) -> (text: String)
    ensures
        text@ == lifetime_text(name@),
{
    let mut text = String::from_str("'");
    text.append(name);
    text
}

/// Writes a predicate: what is bounded, a colon, and the bounds with `+`
/// between them.
pub fn predicate(left: &str, bounds: &Vec<String>) -> (text: String)
    ensures
        text@ == predicate_text(left@, bounds.deep_view()),
{
    let mut text = String::from_str(left);
    text.append(": ");
    text.append(join(bounds, " + ").as_str());
    text
}

} // verus!
