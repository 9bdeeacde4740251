use vstd::prelude::*;

verus! {

/// A line number in a source text, counted from 1
#[derive(Clone, Copy, Debug, PartialEq, Eq, Structural, PartialOrd, Ord, Hash)]
pub struct LineNumber(pub usize);

/// An instruction number in a program, counted from 1, for where a line number cannot be given
#[derive(Clone, Copy, Debug, PartialEq, Eq, Structural, PartialOrd, Ord, Hash)]
pub struct InstructionNumber(pub usize);

/// An error with the place in the source at which it arose
#[derive(Clone, Copy, Debug, PartialEq, Eq, Hash)]
pub struct ErrorWithLocation<Error, Location>(pub Location, pub Error);

} // verus!
