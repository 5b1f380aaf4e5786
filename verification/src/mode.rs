//! The three operations that can be derived.

use vstd::prelude::*;

verus! {

/// Which of the three operations is being derived.
#[derive(Clone, Copy, Debug, PartialEq, Eq, Structural)]
pub enum Mode {
    /// Copy the structure and borrow what it holds.
    ToBorrowed,
    /// Copy the structure and clone what it holds.
    ToOwned,
    /// Consume the structure and clone only what it does not own.
    IntoOwned,
}

impl Mode {
    /// The path of the trait that carries the operation.
    pub open spec fn name_text(self) -> Seq<char> {
        match self {
            Mode::ToBorrowed => "::ownable::traits::ToBorrowed"@,
            Mode::ToOwned => "::ownable::traits::ToOwned"@,
            Mode::IntoOwned => "::ownable::traits::IntoOwned"@,
        }
    }

    /// The name of the trait's method.
    pub open spec fn function_text(self) -> Seq<char> {
        match self {
            Mode::ToBorrowed => "to_borrowed"@,
            Mode::ToOwned => "to_owned"@,
            Mode::IntoOwned => "into_owned"@,
        }
    }

    /// What stands before the receiver: `&` where the operation borrows it,
    /// nothing where it consumes it.
    pub open spec fn as_ref_text(self) -> Seq<char> {
        match self {
            Mode::IntoOwned => ""@,
            _ => "&"@,
        }
    }

    /// The documentation attached to the generated convenience method.
    pub open spec fn doc_text(self) -> Seq<char> {
        match self {
            Mode::ToBorrowed =>
                " Copy the structure and reference the original values.\n\nThis is always a deep copy of the structure."@,
            Mode::ToOwned =>
                " Copy the structure and clone the original values.\n\nThis is always a deep copy."@,
            Mode::IntoOwned =>
                " Copy the structure and clone the original values if it's not owned.\n\nThis is always a deep copy of the structure."@,
        }
    }

    /// The path of the trait that carries the operation.
    pub fn name(self) -> (text: &'static str)
        ensures
            text@ == self.name_text(),
    {
        match self {
            Mode::ToBorrowed => "::ownable::traits::ToBorrowed",
            Mode::ToOwned => "::ownable::traits::ToOwned",
            Mode::IntoOwned => "::ownable::traits::IntoOwned",
        }
    }

    /// The name of the trait's method.
    pub fn function(self) -> (text: &'static str)
        ensures
            text@ == self.function_text(),
    {
        match self {
            Mode::ToBorrowed => "to_borrowed",
            Mode::ToOwned => "to_owned",
            Mode::IntoOwned => "into_owned",
        }
    }

    /// What stands before the receiver: `&` where the operation borrows it,
    /// nothing where it consumes it.
    pub fn as_ref(self) -> (text: &'static str)
        ensures
            text@ == self.as_ref_text(),
    {
        match self {
            Mode::IntoOwned => "",
            _ => "&",
        }
    }

    /// The documentation attached to the generated convenience method.
    pub fn doc(self) -> (text: &'static str)
        ensures
            text@ == self.doc_text(),
    {
        match self {
            Mode::ToBorrowed => {
                " Copy the structure and reference the original values.\n\nThis is always a deep copy of the structure."
            },
            Mode::ToOwned => {
                " Copy the structure and clone the original values.\n\nThis is always a deep copy."
            },
            Mode::IntoOwned => {
                " Copy the structure and clone the original values if it's not owned.\n\nThis is always a deep copy of the structure."
            },
        }
    }
}

} // verus!
