//! Why the generator turned an input down.

use vstd::prelude::*;

verus! {

/// The ways in which generating can fail. The first two stand for failures of
/// the Rust parser and of the argument parser; they carry the diagnostic,
/// already written out as source text.
#[derive(Debug)]
pub enum Error {
    SynError(String),
    Darling(String),
    MissingPrimaryKey,
    AggregatePrimaryKeyNotSupported,
    UnnamedFieldsNotSupported,
}

impl Error {
    /// Whether this error carries a diagnostic that can be handed back to
    /// the compiler.
    pub open spec fn has_diagnostic(self) -> bool {
        self is SynError || self is Darling
    }

    /// The diagnostic that the error carries.
    pub open spec fn diagnostic(self) -> Seq<char> {
        match self {
            Error::SynError(text) => text@,
            Error::Darling(text) => text@,
            _ => Seq::empty(),
        }
    }

    /// The source text that reports this error to the compiler.
    pub fn into_compile_error(self) -> (r: String)
        requires
            self.has_diagnostic(),
        ensures
            r@ == self.diagnostic(),
    {
        match self {
            Error::SynError(text) => text,
            Error::Darling(text) => text,
            _ => String::new(),
        }
    }
}

} // verus!
