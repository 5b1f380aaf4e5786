//! Derive support for types that hold borrowed data.
//!
//! The crate has two halves. The first is a small run-time vocabulary: the
//! traits `ToBorrowed`, `ToOwned` and `IntoOwned` in [`traits`], with
//! implementations for common types, and the wrappers [`AsClone`] and
//! [`AsCopy`].
//!
//! The second is the generator that writes implementations of those traits
//! for a struct or an enum. It reads a description of the type
//! ([`syntax::DeriveInput`]) and returns the implementation as text, or
//! everything that is wrong with the type as a list of diagnostics:
//!
//! - [`attribute_parser`] and [`attribute`] read the options `clone`,
//!   `function` and `reference` of a type, a variant or a field;
//! - [`common`] decides how the new value of each field is made, and writes
//!   the constructor of a struct or of a variant;
//! - [`structs`] and [`enums`] write the body of the operation;
//! - [`generate`] writes the implementation around the body: its generics,
//!   the type with its lifetimes rewritten, and the `where` clause;
//! - [`derive`] puts these together.
//!
//! The contracts speak of the views of the description ([`model`]); what
//! holds of every input is proved in [`laws`].

pub mod as_clone;
pub mod as_copy;
pub mod attribute;
pub mod attribute_parser;
pub mod common;
pub mod derive;
pub mod diagnostic;
pub mod enums;
pub mod generate;
pub mod laws;
pub mod mode;
pub mod model;
pub mod structs;
pub mod syntax;
pub mod text;
pub mod traits;
pub mod types;

pub use crate::as_clone::AsClone;
pub use crate::as_copy::AsCopy;
pub use crate::mode::Mode;

use crate::derive::{derived_errors, derived_text};
use crate::diagnostic::{delivers, Diagnostic};
use crate::syntax::DeriveInput;
use vstd::prelude::*;

verus! {

/// Derives `ToBorrowed` for the type `input`.
pub fn to_borrowed(input: &DeriveInput) -> (r: Result<String, Vec<Diagnostic>>)
    ensures
        delivers(
            r,
            derived_text(input@, Mode::ToBorrowed),
            derived_errors(input@, Mode::ToBorrowed),
        ),
{
    crate::derive::derive(input, Mode::ToBorrowed)
}

/// Derives `ToOwned` for the type `input`.
pub fn to_owned(input: &DeriveInput) -> (r: Result<String, Vec<Diagnostic>>)
    ensures
        delivers(r, derived_text(input@, Mode::ToOwned), derived_errors(input@, Mode::ToOwned)),
{
    crate::derive::derive(input, Mode::ToOwned)
}

/// Derives `IntoOwned` for the type `input`.
pub fn into_owned(input: &DeriveInput) -> (r: Result<String, Vec<Diagnostic>>)
    ensures
        delivers(
            r,
            derived_text(input@, Mode::IntoOwned),
            derived_errors(input@, Mode::IntoOwned),
        ),
{
    crate::derive::derive(input, Mode::IntoOwned)
}

} // verus!
