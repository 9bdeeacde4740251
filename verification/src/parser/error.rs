use crate::{assembly, errors};
use vstd::prelude::*;

verus! {

/// Parsing errors
#[derive(Clone, Copy, Debug, PartialEq, Eq, Structural, Hash)]
pub enum Error {
    /// Too many words on one line (before any comments)
    TooManyWords,
    /// Too many instructions (maximum of 100)
    TooManyInstructions,
    /// Multiple instructions on one line (before any comments)
    MultipleInstructions,
    /// A number was found before an instruction (they cannot be used as labels)
    UnexpectedNumber,
    /// A line did not have an instruction but did have other non-space contents
    NoInstruction,
    /// See [`assembly::Error`]
    DataPresence(assembly::Error),
    /// The label was not found in the parsed assembly
    UnknownLabel,
}

/// A parsing error with the place at which it arose
pub type ErrorWithLocation<Location> = errors::ErrorWithLocation<Error, Location>;

impl From<assembly::Error> for Error {
    fn from(value: assembly::Error) -> (error: Self)
        ensures
            error == Error::DataPresence(value),
    {
        Self::DataPresence(value)
    }
}

impl vstd::std_specs::convert::FromSpecImpl<assembly::Error> for Error {
    open spec fn obeys_from_spec() -> bool {
        true
    }

    open spec fn from_spec(value: assembly::Error) -> Self {
        Error::DataPresence(value)
    }
}

} // verus!
