//! Type expressions: finding lifetimes in them, and putting one lifetime
//! in the place of another.

use crate::model::{ArgumentView, TypeView};
use crate::syntax::{GenericArgument, Type};
use crate::text::same;
use vstd::prelude::*;

verus! {

/// `lifetime`, or `to` where `lifetime` is `from`.
pub open spec fn renamed(lifetime: Seq<char>, from: Seq<char>, to: Seq<char>) -> Seq<char> {
    if lifetime == from {
        to
    } else {
        lifetime
    }
}

impl TypeView {
    /// The type with the lifetime `to` in every place of the lifetime
    /// `from`.
    pub open spec fn substituted(self, from: Seq<char>, to: Seq<char>) -> TypeView
        decreases self,
    {
        match self {
            TypeView::Reference { lifetime, mutable, elem, span } => TypeView::Reference {
                lifetime: match lifetime {
                    Some(l) => Some(renamed(l, from, to)),
                    None => None,
                },
                mutable,
                elem: Box::new((*elem).substituted(from, to)),
                span,
            },
            TypeView::Path { name, arguments, span } => TypeView::Path {
                name,
                arguments: Seq::new(
                    arguments.len(),
                    |i: int|
                        if 0 <= i < arguments.len() {
                            arguments[i].substituted(from, to)
                        } else {
                            ArgumentView::Lifetime(Seq::empty())
                        },
                ),
                span,
            },
        }
    }

    /// Whether the lifetime `lifetime` stands anywhere in the type.
    pub open spec fn mentions(self, lifetime: Seq<char>) -> bool
        decreases self,
    {
        match self {
            TypeView::Reference { lifetime: l, elem, .. } => {
                l == Some(lifetime) || (*elem).mentions(lifetime)
            },
            TypeView::Path { arguments, .. } => exists|i: int|
                0 <= i < arguments.len() && (#[trigger] arguments[i]).mentions(lifetime),
        }
    }

    /// The lifetime of the reference, where the type is a reference that
    /// carries one.
    pub open spec fn reference_lifetime(self) -> Option<Seq<char>> {
        match self {
            TypeView::Reference { lifetime, .. } => lifetime,
            TypeView::Path { .. } => None,
        }
    }
}

impl ArgumentView {
    /// The argument with the lifetime `to` in every place of the lifetime
    /// `from`.
    pub open spec fn substituted(self, from: Seq<char>, to: Seq<char>) -> ArgumentView
        decreases self,
    {
        match self {
            ArgumentView::Lifetime(l) => ArgumentView::Lifetime(renamed(l, from, to)),
            ArgumentView::Type(t) => ArgumentView::Type(t.substituted(from, to)),
            ArgumentView::Const(c) => ArgumentView::Const(c),
        }
    }

    /// Whether the lifetime `lifetime` stands anywhere in the argument.
    pub open spec fn mentions(self, lifetime: Seq<char>) -> bool
        decreases self,
    {
        match self {
            ArgumentView::Lifetime(l) => l == lifetime,
            ArgumentView::Type(t) => t.mentions(lifetime),
            ArgumentView::Const(_) => false,
        }
    }
}

/// Writes `lifetime`, or `to` where `lifetime` is `from`.
fn rename(lifetime: &str, from: &str, to: &str) -> (name: String)
    ensures
        name@ == renamed(lifetime@, from@, to@),
{
    if same(lifetime, from) {
        to.to_owned()
    } else {
        lifetime.to_owned()
    }
}

impl Type {
    /// The lifetime of the reference, where the type is a reference that
    /// carries one.
    pub fn reference_lifetime(&self) -> (lifetime: Option<&String>)
        ensures
            match lifetime {
                Some(l) => self@.reference_lifetime() == Some(l@),
                None => self@.reference_lifetime() is None,
            },
    {
        match self {
            Type::Reference { lifetime: Some(l), .. } => Some(l),
            _ => None,
        }
    }

    /// Writes the type with the lifetime `to` in every place of the
    /// lifetime `from`.
    pub fn substitute(&self, from: &str, to: &str) -> (r: Type)
        ensures
            r@ == self@.substituted(from@, to@),
        decreases self,
    {
        match self {
            Type::Reference { lifetime, mutable, elem, span } => {
                let lifetime = match lifetime {
                    Some(l) => Some(rename(l.as_str(), from, to)),
                    None => None,
                };
                Type::Reference {
                    lifetime,
                    mutable: *mutable,
                    elem: Box::new(elem.substitute(from, to)),
                    span: *span,
                }
            },
            Type::Path { name, arguments, span } => {
                let mut list: Vec<GenericArgument> = Vec::new();
                let mut i: usize = 0;
                while i < arguments.len()
                    invariant
                        i <= arguments.len(),
                        list.len() == i,
                        self matches Type::Path { arguments: a, .. } && a == arguments,
                        forall|j: int|
                            0 <= j < i ==> (#[trigger] list@[j])@ == arguments@[j]@.substituted(
                                from@,
                                to@,
                            ),
                    decreases arguments.len() - i,
                {
                    let argument = match &arguments[i] {
                        GenericArgument::Lifetime(l) => GenericArgument::Lifetime(
                            rename(l.as_str(), from, to),
                        ),
                        GenericArgument::Type(t) => GenericArgument::Type(t.substitute(from, to)),
                        GenericArgument::Const(c) => GenericArgument::Const(c.clone()),
                    };
                    list.push(argument);
                    i += 1;
                }
                let r = Type::Path { name: name.clone(), arguments: list, span: *span };
                assert(r@->arguments =~= self@.substituted(from@, to@)->arguments);
                r
            },
        }
    }

    /// Whether the lifetime `lifetime` stands anywhere in the type.
    pub fn mentions(&self, lifetime: &str) -> (r: bool)
        ensures
            r == self@.mentions(lifetime@),
        decreases self,
    {
        match self {
            Type::Reference { lifetime: l, elem, .. } => {
                let here = match l {
                    Some(l) => same(l.as_str(), lifetime),
                    None => false,
                };
                here || elem.mentions(lifetime)
            },
            Type::Path { arguments, .. } => {
                let mut i: usize = 0;
                while i < arguments.len()
                    invariant
                        i <= arguments.len(),
                        self matches Type::Path { arguments: a, .. } && a == arguments,
                        forall|j: int|
                            0 <= j < i ==> !(#[trigger] arguments@[j])@.mentions(lifetime@),
                    decreases arguments.len() - i,
                {
                    let found = match &arguments[i] {
                        GenericArgument::Lifetime(l) => same(l.as_str(), lifetime),
                        GenericArgument::Type(t) => t.mentions(lifetime),
                        GenericArgument::Const(_) => false,
                    };
                    if found {
                        assert(self@->arguments[i as int] == arguments@[i as int]@);
                        assert(self@->arguments[i as int].mentions(lifetime@));
                        return true;
                    }
                    i += 1;
                }
                assert forall|j: int| 0 <= j < self@->arguments.len() implies !(#[trigger] self@
                    ->arguments[j]).mentions(lifetime@) by {
                    assert(self@->arguments[j] == arguments@[j]@);
                }
                false
            },
        }
    }
}

} // verus!
