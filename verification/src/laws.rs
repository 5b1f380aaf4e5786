//! What holds of the generator and of the operations, whatever the input.

use crate::as_copy::AsCopy;
use crate::attribute::{candidate, class, first_free, or, resolved_clone, taken};
use crate::common::{clone_option, place, plain, unsupported_reference, variant_clone, Call};
use crate::derive::{derived_errors, options_of, scope, DeriveView};
use crate::diagnostic::{problem, DiagnosticView, ErrorKind};
use crate::generate::{fields_of, lifetime_text, operation_bound, predicate_text};
use crate::mode::Mode;
use crate::model::{
    ArgumentView, DataView, DeriveInputView, FieldView, FieldsView, GenericParamView, GenericsView,
    TypeView, VariantView,
};
use crate::traits::collections::{
    entries_borrowed_as, entries_owned_as, items_borrowed_as, items_owned_as,
};
use crate::traits::sequences::each_turned_into;
use crate::traits::{IntoOwned, ToBorrowed, ToOwned};
use std::borrow::Cow;
use vstd::prelude::*;

verus! {

/// Whether `ty` is a reference that carries a lifetime.
pub open spec fn is_reference(ty: TypeView) -> bool {
    ty.reference_lifetime() is Some
}

/// Whether `field` is one of the fields of `data`, with the `clone` option
/// `variant` of the variant around it.
pub open spec fn has_field(data: DataView, variant: Option<bool>, field: FieldView) -> bool {
    match data {
        DataView::Struct(fields) => variant is None && fields_of(fields).contains(field),
        DataView::Enum(variants) => exists|i: int|
            0 <= i < variants.len() && variant == clone_option((#[trigger] variants[i]).attrs)
                && fields_of(variants[i].fields).contains(field),
        DataView::Union => false,
    }
}

/// The innermost scope that sets `clone` decides whether a field is cloned:
/// the field before the variant, the variant before the type. Where no
/// scope sets it, the field is not cloned.
pub proof fn clone_is_inherited(field: Option<bool>, variant: Option<bool>, derive: Option<bool>)
    ensures
        field is Some ==> resolved_clone(field, variant, derive) == field->0,
        field is None && variant is Some ==> resolved_clone(field, variant, derive) == variant->0,
        field is None && variant is None && derive is Some ==> resolved_clone(
            field,
            variant,
            derive,
        ) == derive->0,
        field is None && variant is None && derive is None ==> !resolved_clone(
            field,
            variant,
            derive,
        ),
{
}

/// In a type that sets `clone`, a field that is no reference is converted
/// if and only if the field itself, or else the variant around it, sets
/// `clone` to `false`; every other such field is cloned.
pub proof fn clone_is_overridden(derive: DeriveView, variant: Option<bool>, field: FieldView)
    requires
        derive.attribute.clone == Some(true),
        !is_reference(field.ty),
    ensures
        derive.call(variant, field) == Some(Call::Convert) <==> or(
            clone_option(field.attrs),
            variant,
        ) == Some(false),
        derive.call(variant, field) != Some(Call::Convert) ==> derive.call(variant, field) == Some(
            Call::Clone,
        ),
{
}

/// A field that is marked to be cloned, and is no reference, is cloned by
/// every operation: its new value is the same call of `Clone::clone`,
/// whichever operation is derived.
pub proof fn forced_clone_is_cloned(
    derive: DeriveView,
    variant: Option<bool>,
    field: FieldView,
    index: Seq<char>,
    with_self: bool,
)
    requires
        derive.clones(variant, field),
        !is_reference(field.ty),
    ensures
        derive.call(variant, field) == Some(Call::Clone),
        derive.field_errors(variant, field) == crate::common::option_errors(field.attrs),
        derive.field_text(variant, field, index, with_self) == "::core::clone::Clone::clone(&"@
            + place(index, with_self) + ")"@,
{
    assert(derive.field_errors(variant, field) =~= crate::common::option_errors(field.attrs));
}

/// A reference whose lifetime is marked with `reference` is handed on as
/// it is by every operation: its new value is the field itself, and no
/// function is applied to it.
pub proof fn reference_is_kept(
    derive: DeriveView,
    variant: Option<bool>,
    field: FieldView,
    index: Seq<char>,
    with_self: bool,
)
    requires
        is_reference(field.ty),
        derive.attribute.references.contains(field.ty.reference_lifetime()->0),
    ensures
        derive.call(variant, field) == Some(Call::Reference),
        derive.field_text(variant, field, index, with_self) == place(index, with_self),
{
}

/// How the new value of a field is made does not depend on the operation
/// that is derived: the three implementations of one type apply their
/// operation to the same fields, clone the same fields and keep the same
/// fields.
pub proof fn operations_agree(
    input: DeriveInputView,
    first: Mode,
    second: Mode,
    variant: Option<bool>,
    field: FieldView,
)
    ensures
        scope(input, first).call(variant, field) == scope(input, second).call(variant, field),
        scope(input, first).field_errors(variant, field) == scope(input, second).field_errors(
            variant,
            field,
        ),
{
}

/// What is reported of a list of fields holds what is reported of each of
/// them.
pub proof fn lemma_fields_errors_hold(
    derive: DeriveView,
    variant: Option<bool>,
    fields: Seq<FieldView>,
    j: int,
    d: DiagnosticView,
)
    requires
        0 <= j < fields.len(),
        derive.field_errors(variant, fields[j]).contains(d),
    ensures
        derive.fields_errors(variant, fields).contains(d),
    decreases fields.len(),
{
    let before = derive.fields_errors(variant, fields.drop_last());
    let last = derive.field_errors(variant, fields.last());
    if j < fields.len() - 1 {
        lemma_fields_errors_hold(derive, variant, fields.drop_last(), j, d);
        let i = choose|i: int| 0 <= i < before.len() && before[i] == d;
        assert((before + last)[i] == d);
    } else {
        let i = choose|i: int| 0 <= i < last.len() && last[i] == d;
        assert((before + last)[before.len() + i] == d);
    }
}

/// What is reported of a list of variants holds what is reported of each
/// of them.
pub proof fn lemma_enum_errors_hold(
    derive: DeriveView,
    variants: Seq<VariantView>,
    j: int,
    d: DiagnosticView,
)
    requires
        0 <= j < variants.len(),
        derive.arm_errors(variants[j]).contains(d),
    ensures
        derive.enum_body_errors(variants).contains(d),
    decreases variants.len(),
{
    let before = derive.enum_body_errors(variants.drop_last());
    let last = derive.arm_errors(variants.last());
    if j < variants.len() - 1 {
        lemma_enum_errors_hold(derive, variants.drop_last(), j, d);
        let i = choose|i: int| 0 <= i < before.len() && before[i] == d;
        assert((before + last)[i] == d);
    } else {
        let i = choose|i: int| 0 <= i < last.len() && last[i] == d;
        assert((before + last)[before.len() + i] == d);
    }
}

/// The arguments of the rewritten type stand in the order of the type's
/// parameters, one for each parameter: a lifetime that is never rewritten
/// as itself, any other lifetime as the new lifetime, and a type or a
/// constant by its name.
pub proof fn arguments_keep_their_order(
    derive: DeriveView,
    params: Seq<GenericParamView>,
    new: Seq<char>,
    i: int,
)
    requires
        0 <= i < params.len(),
    ensures
        derive.generics_items(params, Some(new)).len() == params.len(),
        derive.generics_items(params, Some(new))[i] == match params[i] {
            GenericParamView::Lifetime(l) => lifetime_text(derive.kept(l.lifetime, new)),
            GenericParamView::Type(t) => t.ident,
            GenericParamView::Const(c) => c.ident,
        },
    decreases params.len(),
{
    if params.len() > 0 {
        let front = params.drop_last();
        if front.len() > 0 {
            arguments_keep_their_order(derive, front, new, 0);
        }
        if i < params.len() - 1 {
            arguments_keep_their_order(derive, front, new, i);
        }
    }
}

/// The implementation declares no lifetime that is rewritten: each item of
/// its generics stands for a parameter of the type that is a type, a
/// constant, or a lifetime that is never rewritten.
pub proof fn rewritten_lifetimes_are_not_declared(
    derive: DeriveView,
    params: Seq<GenericParamView>,
    k: int,
)
    requires
        0 <= k < derive.generics_items(params, None).len(),
    ensures
        exists|i: int|
            0 <= i < params.len() && derive.generic_item(#[trigger] params[i], None) == Some(
                derive.generics_items(params, None)[k],
            ),
    decreases params.len(),
{
    let front = params.drop_last();
    let before = derive.generics_items(front, None);
    if k < before.len() {
        rewritten_lifetimes_are_not_declared(derive, front, k);
        let i = choose|i: int|
            0 <= i < front.len() && derive.generic_item(#[trigger] front[i], None) == Some(
                before[k],
            );
        assert(params[i] == front[i]);
    } else {
        assert(derive.generic_item(params[params.len() - 1], None) == Some(
            derive.generics_items(params, None)[k],
        ));
    }
}

/// Every type parameter has a predicate in the `where` clause of the
/// implementation. It holds the parameter's own bounds, rewritten, and after
/// them the bound that asks the parameter for the operation that is derived.
pub proof fn parameters_are_asked(
    derive: DeriveView,
    params: Seq<GenericParamView>,
    new: Seq<char>,
    i: int,
)
    requires
        0 <= i < params.len(),
        params[i] is Type,
    ensures
        derive.param_predicates(params, new).contains(
            predicate_text(params[i]->Type_0.ident, derive.param_bounds(params[i]->Type_0, new)),
        ),
        derive.param_bounds(params[i]->Type_0, new) == derive.bound_texts(
            params[i]->Type_0.bounds,
            new,
        ).push(operation_bound(derive.mode, new, params[i]->Type_0.ident)),
    decreases params.len(),
{
    let t = params[i]->Type_0;
    let text = predicate_text(t.ident, derive.param_bounds(t, new));
    let front = params.drop_last();
    let before = derive.param_predicates(front, new);
    let all = derive.param_predicates(params, new);
    if i < params.len() - 1 {
        parameters_are_asked(derive, front, new, i);
        let k = choose|k: int| 0 <= k < before.len() && before[k] == text;
        assert(all[k] == text);
    } else {
        assert(all[all.len() - 1] == text);
    }
}

/// No bound of a lifetime in the `where` clause of the implementation names
/// a lifetime that is rewritten: each names a lifetime that is never
/// rewritten, or the new lifetime in the place of any other.
pub proof fn bounds_name_no_rewritten_lifetime(
    derive: DeriveView,
    bounds: Seq<Seq<char>>,
    new: Seq<char>,
    i: int,
)
    requires
        0 <= i < bounds.len(),
    ensures
        derive.outlives_texts(bounds, new).len() == bounds.len(),
        derive.attribute.references.contains(bounds[i]) ==> derive.outlives_texts(bounds, new)[i]
            == lifetime_text(bounds[i]),
        !derive.attribute.references.contains(bounds[i]) ==> derive.outlives_texts(bounds, new)[i]
            == lifetime_text(new),
{
}

/// The body for an enum has one arm for each variant, in the order of the
/// variants. Each arm matches one variant and makes a value of the same
/// variant: the pattern and the new value both begin with the path of that
/// variant.
pub proof fn arms_keep_their_variants(derive: DeriveView, variants: Seq<VariantView>, i: int)
    requires
        0 <= i < variants.len(),
    ensures
        derive.arms(variants).len() == variants.len(),
        derive.arms(variants)[i] == derive.arm(variants[i]),
        exists|pattern: Seq<char>, value: Seq<char>|
            #![trigger pattern + " => "@ + value]
            derive.arm(variants[i]) == pattern + " => "@ + value && derive.constructor(
                Some(variants[i]),
            ).is_prefix_of(pattern) && derive.constructor(Some(variants[i])).is_prefix_of(value),
{
    let v = variants[i];
    let path = derive.constructor(Some(v));
    match v.fields {
        FieldsView::Named(named) => {
            let pattern = derive.named_pattern(v, named);
            let value = derive.named_text(Some(v), named);
            assert(derive.arm(v) == pattern + " => "@ + value);
            assert(path.is_prefix_of(pattern));
            assert(path.is_prefix_of(value));
        },
        FieldsView::Unnamed(unnamed) => {
            let pattern = derive.unnamed_pattern(v, unnamed);
            let value = derive.unnamed_text(Some(v), unnamed);
            assert(derive.arm(v) == pattern + " => "@ + value);
            assert(path.is_prefix_of(pattern));
            assert(path.is_prefix_of(value));
        },
        FieldsView::Unit => {
            assert(derive.arm(v) == path + " => "@ + path);
            assert(path.is_prefix_of(path));
        },
    }
}

/// The second of two lists that are put together is held by the result.
proof fn lemma_later_part_holds(
    first: Seq<DiagnosticView>,
    second: Seq<DiagnosticView>,
    d: DiagnosticView,
)
    requires
        second.contains(d),
    ensures
        (first + second).contains(d),
{
    let i = choose|i: int| 0 <= i < second.len() && second[i] == d;
    assert((first + second)[first.len() + i] == d);
}

/// The first of two lists that are put together is held by the result.
proof fn lemma_earlier_part_holds(
    first: Seq<DiagnosticView>,
    second: Seq<DiagnosticView>,
    d: DiagnosticView,
)
    requires
        first.contains(d),
    ensures
        (first + second).contains(d),
{
    let i = choose|i: int| 0 <= i < first.len() && first[i] == d;
    assert((first + second)[i] == d);
}

/// A type with a field that is a reference whose lifetime is not marked
/// with `reference` is rejected, whichever operation is derived: the
/// reference is reported at its place, and so no implementation is
/// returned.
pub proof fn reference_is_rejected(
    input: DeriveInputView,
    mode: Mode,
    variant: Option<bool>,
    field: FieldView,
)
    requires
        has_field(input.data, variant, field),
        is_reference(field.ty),
        !options_of(input).references.contains(field.ty.reference_lifetime()->0),
    ensures
        derived_errors(input, mode).contains(unsupported_reference(field.ty.span())),
        derived_errors(input, mode).len() > 0,
{
    let derive = scope(input, mode);
    let d = unsupported_reference(field.ty.span());
    let own = derive.field_errors(variant, field);
    assert(own.contains(d)) by {
        let first = crate::common::option_errors(field.attrs);
        assert(own[first.len() as int] == d);
    }
    let head = crate::derive::options_errors(input) + crate::attribute::undeclared(
        derive.attribute.references,
        input.generics,
        derive.attribute.reference_span,
    );
    match input.data {
        DataView::Struct(fields) => {
            let list = fields_of(fields);
            let j = choose|j: int| 0 <= j < list.len() && list[j] == field;
            lemma_fields_errors_hold(derive, None, list, j, d);
            let body = derive.struct_body_errors(fields);
            assert(body.contains(d)) by {
                match fields {
                    FieldsView::Named(named) => {
                        lemma_later_part_holds(
                            Seq::empty(),
                            derive.fields_errors(None, plain(named)),
                            d,
                        );
                    },
                    FieldsView::Unnamed(unnamed) => {
                        lemma_later_part_holds(
                            Seq::empty(),
                            derive.fields_errors(None, unnamed),
                            d,
                        );
                    },
                    FieldsView::Unit => {},
                }
            }
            lemma_earlier_part_holds(body, derive.generate_errors(), d);
            lemma_later_part_holds(head, body + derive.generate_errors(), d);
        },
        DataView::Enum(variants) => {
            let i = choose|i: int|
                0 <= i < variants.len() && variant == clone_option((#[trigger] variants[i]).attrs)
                    && fields_of(variants[i].fields).contains(field);
            let v = variants[i];
            let list = fields_of(v.fields);
            let j = choose|j: int| 0 <= j < list.len() && list[j] == field;
            lemma_fields_errors_hold(derive, variant, list, j, d);
            assert(derive.arm_errors(v).contains(d)) by {
                match v.fields {
                    FieldsView::Named(named) => {
                        lemma_later_part_holds(
                            crate::common::variant_errors(Some(v)),
                            derive.fields_errors(variant_clone(Some(v)), plain(named)),
                            d,
                        );
                    },
                    FieldsView::Unnamed(unnamed) => {
                        lemma_later_part_holds(
                            crate::common::variant_errors(Some(v)),
                            derive.fields_errors(variant_clone(Some(v)), unnamed),
                            d,
                        );
                    },
                    FieldsView::Unit => {},
                }
            }
            lemma_enum_errors_hold(derive, variants, i, d);
            let body = derive.enum_body_errors(variants);
            lemma_earlier_part_holds(body, derive.generate_errors(), d);
            lemma_later_part_holds(head, body + derive.generate_errors(), d);
        },
        DataView::Union => {},
    }
}

/// A union is rejected, whichever operation is derived.
pub proof fn union_is_rejected(input: DeriveInputView, mode: Mode)
    requires
        input.data is Union,
    ensures
        derived_errors(input, mode).contains(
            problem(input.span, ErrorKind::UnsupportedShape, "union is not supported"@),
        ),
        derived_errors(input, mode).len() > 0,
{
    let d = problem(input.span, ErrorKind::UnsupportedShape, "union is not supported"@);
    let last = seq![d];
    assert(last[0] == d);
    let derive = scope(input, mode);
    lemma_later_part_holds(
        crate::derive::options_errors(input) + crate::attribute::undeclared(
            derive.attribute.references,
            input.generics,
            derive.attribute.reference_span,
        ),
        last,
        d,
    );
}

/// The lifetime that is picked for `ToBorrowed` is new to the type: it is
/// none of the lifetimes that are never rewritten and none of the lifetimes
/// that the type declares. It is the shortest of `o`, `ow`, `own`, up to
/// `ownable`, of which this holds, and it is found whenever there is one.
pub proof fn new_lifetime_is_new(references: Seq<Seq<char>>, generics: GenericsView, n: int)
    requires
        1 <= n <= 8,
    ensures
        first_free(references, generics, n) is Some ==> {
            let new = first_free(references, generics, n)->0;
            &&& !references.contains(new)
            &&& !generics.declares(new)
            &&& exists|k: int|
                n <= k <= 7 && new == candidate(k) && forall|j: int|
                    n <= j < k ==> taken(references, generics, #[trigger] candidate(j))
        },
        first_free(references, generics, n) is None ==> forall|k: int|
            n <= k <= 7 ==> taken(references, generics, #[trigger] candidate(k)),
    decreases 8 - n,
{
    if n <= 7 {
        if taken(references, generics, candidate(n)) {
            new_lifetime_is_new(references, generics, n + 1);
            if first_free(references, generics, n) is Some {
                let new = first_free(references, generics, n + 1)->0;
                let k = choose|k: int|
                    n + 1 <= k <= 7 && new == candidate(k) && forall|j: int|
                        n + 1 <= j < k ==> taken(references, generics, #[trigger] candidate(j));
                assert(n <= k <= 7 && new == candidate(k) && forall|j: int|
                    n <= j < k ==> taken(references, generics, #[trigger] candidate(j)));
            }
        } else {
            let new = candidate(n);
            assert(n <= n <= 7 && new == candidate(n) && forall|j: int|
                n <= j < n ==> taken(references, generics, #[trigger] candidate(j)));
        }
    }
}

/// Every lifetime that is declared stands in exactly one class: among those
/// that are kept if `references` holds it, among the others if not. No
/// class holds anything else.
pub proof fn lifetimes_are_classified(
    params: Seq<GenericParamView>,
    references: Seq<Seq<char>>,
    name: Seq<char>,
)
    ensures
        class(params, references, true).contains(name) <==> references.contains(name) && exists|
            i: int,
        |
            0 <= i < params.len() && (#[trigger] params[i]).declares(name),
        class(params, references, false).contains(name) <==> !references.contains(name) && exists|
            i: int,
        |
            0 <= i < params.len() && (#[trigger] params[i]).declares(name),
    decreases params.len(),
{
    if params.len() > 0 {
        let front = params.drop_last();
        lifetimes_are_classified(front, references, name);
        assert forall|kept: bool| #![auto] class(params, references, kept).contains(name) <==> (
        references.contains(name) == kept) && exists|i: int|
            0 <= i < params.len() && (#[trigger] params[i]).declares(name) by {
            let before = class(front, references, kept);
            let now = class(params, references, kept);
            if now.contains(name) {
                let k = choose|k: int| 0 <= k < now.len() && now[k] == name;
                if k < before.len() {
                    assert(before[k] == name);
                    let i = choose|i: int| 0 <= i < front.len() && (#[trigger] front[i]).declares(name);
                    assert(params[i].declares(name));
                } else {
                    assert(params[params.len() - 1].declares(name));
                }
            }
            if (references.contains(name) == kept) && exists|i: int|
                0 <= i < params.len() && (#[trigger] params[i]).declares(name) {
                let i = choose|i: int| 0 <= i < params.len() && (#[trigger] params[i]).declares(name);
                if i < params.len() - 1 {
                    assert(front[i].declares(name));
                    let k = choose|k: int| 0 <= k < before.len() && before[k] == name;
                    assert(now[k] == name);
                } else {
                    assert(now[now.len() - 1] == name);
                }
            }
        }
    }
}

/// A lifetime that a type does not mention can be replaced without any
/// change to the type.
pub proof fn absent_lifetime_is_untouched(ty: TypeView, from: Seq<char>, to: Seq<char>)
    requires
        !ty.mentions(from),
    ensures
        ty.substituted(from, to) == ty,
    decreases ty,
{
    match ty {
        TypeView::Reference { lifetime, mutable, elem, span } => {
            absent_lifetime_is_untouched(*elem, from, to);
        },
        TypeView::Path { name, arguments, span } => {
            let new = ty.substituted(from, to)->arguments;
            assert(new.len() == arguments.len());
            assert forall|i: int| 0 <= i < arguments.len() implies new[i] == arguments[i] by {
                assert(!arguments[i].mentions(from));
                assert(new[i] == arguments[i].substituted(from, to));
                match arguments[i] {
                    ArgumentView::Type(t) => {
                        absent_lifetime_is_untouched(t, from, to);
                    },
                    ArgumentView::Lifetime(l) => {
                        assert(l != from);
                    },
                    ArgumentView::Const(_) => {},
                }
            }
            assert(new =~= arguments);
        },
    }
}

/// After one lifetime has been put in the place of another, the type no
/// longer mentions the lifetime that was replaced.
pub proof fn replaced_lifetime_is_gone(ty: TypeView, from: Seq<char>, to: Seq<char>)
    requires
        from != to,
    ensures
        !ty.substituted(from, to).mentions(from),
    decreases ty,
{
    match ty {
        TypeView::Reference { lifetime, mutable, elem, span } => {
            replaced_lifetime_is_gone(*elem, from, to);
        },
        TypeView::Path { name, arguments, span } => {
            let new = ty.substituted(from, to)->arguments;
            assert(new.len() == arguments.len());
            assert forall|i: int| 0 <= i < new.len() implies !(#[trigger] new[i]).mentions(from) by {
                assert(new[i] == arguments[i].substituted(from, to));
                match arguments[i] {
                    ArgumentView::Type(t) => {
                        replaced_lifetime_is_gone(t, from, to);
                    },
                    ArgumentView::Lifetime(l) => {},
                    ArgumentView::Const(_) => {},
                }
            }
        },
    }
}

/// Whether the three roads from a value of `T` to an owned value end in
/// the same value: converting a borrowed copy, copying to an owned value,
/// and converting the value itself.
pub open spec fn agrees<'a, T>() -> bool where
    T: ToBorrowed<'a> + ToOwned + IntoOwned<Owned = <T as ToOwned>::Owned>,
 {
    forall|
        value: T,
        borrowed: T,
        first: <T as ToOwned>::Owned,
        second: <T as ToOwned>::Owned,
        third: <T as ToOwned>::Owned,
    |
        #![trigger value.borrowed_as(borrowed), borrowed.turned_into(first), value.owned_as(second), value.turned_into(third)]
        value.borrowed_as(borrowed) && borrowed.turned_into(first) && value.owned_as(second)
            && value.turned_into(third) ==> first == second && second == third
}

/// The three roads agree for the integers, for `bool` and for `char`.
pub proof fn copies_agree()
    ensures
        agrees::<u8>(),
        agrees::<u16>(),
        agrees::<u32>(),
        agrees::<u64>(),
        agrees::<u128>(),
        agrees::<usize>(),
        agrees::<i8>(),
        agrees::<i16>(),
        agrees::<i32>(),
        agrees::<i64>(),
        agrees::<i128>(),
        agrees::<isize>(),
        agrees::<bool>(),
        agrees::<char>(),
        agrees::<()>(),
{
}

/// The three roads agree for `AsCopy`.
pub proof fn as_copy_agrees<T: Copy>()
    ensures
        agrees::<AsCopy<T>>(),
{
}

/// Where the three roads agree for `T`, they agree for `Option<T>`.
pub proof fn option_agrees<'a, T>() where
    T: ToBorrowed<'a> + ToOwned + IntoOwned<Owned = <T as ToOwned>::Owned>,

    requires
        agrees::<T>(),
    ensures
        agrees::<Option<T>>(),
{
}

/// Where the three roads agree for `T`, they agree for `Box<T>`.
pub proof fn box_agrees<'a, T>() where
    T: ToBorrowed<'a> + ToOwned + IntoOwned<Owned = <T as ToOwned>::Owned>,

    requires
        agrees::<T>(),
    ensures
        agrees::<Box<T>>(),
{
}

/// Whichever of the three roads is taken from a `Cow`, the value at its end
/// owns its content, and the borrowed copy on the way borrows. Which content
/// that is, is up to the `ToOwned` of the content's type, and is not stated.
pub proof fn cow_is_owned_at_the_end<'a, T: std::borrow::ToOwned + ?Sized + 'static>(
    value: Cow<'a, T>,
    borrowed: Cow<'a, T>,
    first: Cow<'static, T>,
    second: Cow<'static, T>,
    third: Cow<'static, T>,
)
    requires
        value.borrowed_as(borrowed),
        borrowed.turned_into(first),
        value.owned_as(second),
        value.turned_into(third),
    ensures
        borrowed is Borrowed,
        first is Owned,
        second is Owned,
        third is Owned,
        value matches Cow::Owned(owned) ==> third == Cow::<'static, T>::Owned(owned),
{
}

/// Where the three roads agree for `A` and for `B`, they agree for the
/// pair `(A, B)`.
pub proof fn pair_agrees<'a, A, B>() where
    A: ToBorrowed<'a> + ToOwned + IntoOwned<Owned = <A as ToOwned>::Owned>,
    B: ToBorrowed<'a> + ToOwned + IntoOwned<Owned = <B as ToOwned>::Owned>,

    requires
        agrees::<A>(),
        agrees::<B>(),
    ensures
        agrees::<(A, B)>(),
{
}

/// Where the three roads agree for the keys and for the values of a map,
/// they lead to the same list of entries: `entries` lists the map by
/// reference and `moved` by value, `borrowed` is the borrowed copy of the
/// entries, and `first`, `second` and `third` are the ends of the three
/// roads. Which map is made of a list is the map's affair.
pub proof fn entries_agree<'a, K, V>(
    entries: Seq<(&'a K, &'a V)>,
    moved: Seq<(K, V)>,
    borrowed: Seq<(K, V)>,
    first: Seq<(<K as ToOwned>::Owned, <V as ToOwned>::Owned)>,
    second: Seq<(<K as ToOwned>::Owned, <V as ToOwned>::Owned)>,
    third: Seq<(<K as ToOwned>::Owned, <V as ToOwned>::Owned)>,
) where
    K: ToBorrowed<'a> + ToOwned + IntoOwned<Owned = <K as ToOwned>::Owned>,
    V: ToBorrowed<'a> + ToOwned + IntoOwned<Owned = <V as ToOwned>::Owned>,

    requires
        agrees::<K>(),
        agrees::<V>(),
        moved.len() == entries.len(),
        forall|i: int| 0 <= i < entries.len() ==> #[trigger] moved[i] == (*entries[i].0, *entries[i].1),
        entries_borrowed_as(entries, borrowed),
        each_turned_into(borrowed, first),
        entries_owned_as(entries, second),
        each_turned_into(moved, third),
    ensures
        first == second,
        second == third,
{
    assert forall|i: int| 0 <= i < entries.len() implies first[i] == second[i] && second[i]
        == third[i] by {
        let key = *entries[i].0;
        let value = *entries[i].1;
        assert(moved[i] == (key, value));
        assert(key.borrowed_as(borrowed[i].0) && value.borrowed_as(borrowed[i].1));
        assert(borrowed[i].turned_into(first[i]));
        assert(key.owned_as(second[i].0) && value.owned_as(second[i].1));
        assert(moved[i].turned_into(third[i]));
    }
    assert(first =~= second);
    assert(second =~= third);
}

/// Where the three roads agree for the items of a set, they lead to the
/// same list of items: `items` lists the set by reference and `moved` by
/// value, `borrowed` is the borrowed copy of the items, and `first`, `second`
/// and `third` are the ends of the three roads. Which set is made of a list
/// is the set's affair.
pub proof fn items_agree<'a, T>(
    items: Seq<&'a T>,
    moved: Seq<T>,
    borrowed: Seq<T>,
    first: Seq<<T as ToOwned>::Owned>,
    second: Seq<<T as ToOwned>::Owned>,
    third: Seq<<T as ToOwned>::Owned>,
) where T: ToBorrowed<'a> + ToOwned + IntoOwned<Owned = <T as ToOwned>::Owned>
    requires
        agrees::<T>(),
        moved.len() == items.len(),
        forall|i: int| 0 <= i < items.len() ==> #[trigger] moved[i] == *items[i],
        items_borrowed_as(items, borrowed),
        each_turned_into(borrowed, first),
        items_owned_as(items, second),
        each_turned_into(moved, third),
    ensures
        first == second,
        second == third,
{
    assert forall|i: int| 0 <= i < items.len() implies first[i] == second[i] && second[i]
        == third[i] by {
        let item = *items[i];
        assert(moved[i] == item);
        assert(item.borrowed_as(borrowed[i]));
        assert(borrowed[i].turned_into(first[i]));
        assert(item.owned_as(second[i]));
        assert(moved[i].turned_into(third[i]));
    }
    assert(first =~= second);
    assert(second =~= third);
}

/// Where the three roads agree for `T`, they lead to arrays of the same
/// items for `[T; N]`.
pub proof fn array_agrees<'a, T, const N: usize>(
    value: [T; N],
    borrowed: [T; N],
    first: [<T as ToOwned>::Owned; N],
    second: [<T as ToOwned>::Owned; N],
    third: [<T as ToOwned>::Owned; N],
) where T: ToBorrowed<'a> + ToOwned + IntoOwned<Owned = <T as ToOwned>::Owned>
    requires
        agrees::<T>(),
        value.borrowed_as(borrowed),
        borrowed.turned_into(first),
        value.owned_as(second),
        value.turned_into(third),
    ensures
        first@ == second@,
        second@ == third@,
{
    assert forall|i: int| 0 <= i < value@.len() implies first@[i] == second@[i] && second@[i]
        == third@[i] by {
        assert(value@[i].borrowed_as(borrowed@[i]));
        assert(borrowed@[i].turned_into(first@[i]));
        assert(value@[i].owned_as(second@[i]));
        assert(value@[i].turned_into(third@[i]));
    }
    assert(first@ =~= second@);
    assert(second@ =~= third@);
}

/// Where the three roads agree for `T`, they lead to lists of the same
/// items for `Vec<T>`.
pub proof fn vec_agrees<'a, T>(
    value: Vec<T>,
    borrowed: Vec<T>,
    first: Vec<<T as ToOwned>::Owned>,
    second: Vec<<T as ToOwned>::Owned>,
    third: Vec<<T as ToOwned>::Owned>,
) where T: ToBorrowed<'a> + ToOwned + IntoOwned<Owned = <T as ToOwned>::Owned>
    requires
        agrees::<T>(),
        value.borrowed_as(borrowed),
        borrowed.turned_into(first),
        value.owned_as(second),
        value.turned_into(third),
    ensures
        first@ == second@,
        second@ == third@,
{
    assert forall|i: int| 0 <= i < value@.len() implies first@[i] == second@[i] && second@[i]
        == third@[i] by {
        assert(value@[i].borrowed_as(borrowed@[i]));
        assert(borrowed@[i].turned_into(first@[i]));
        assert(value@[i].owned_as(second@[i]));
        assert(value@[i].turned_into(third@[i]));
    }
    assert(first@ =~= second@);
    assert(second@ =~= third@);
}

} // verus!
