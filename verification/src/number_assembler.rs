use crate::computer::{memory_values, Memory};
use crate::errors::{ErrorWithLocation, LineNumber};
use crate::num3::{ThreeDigitNumber, TryFromError};
use crate::text::{
    chars_of, code_of, find_either, line_spans, lines_of, parse_number, parse_unsigned, piece,
    spans_give, trim, trim_span, ParseIntError,
};
use vstd::prelude::*;

verus! {

/// Assemble from numbers
pub struct NumberAssembler {
    memory: Memory,
    index: usize,
}

/// Errors for assembling from numbers
#[derive(Clone, Copy, Debug, PartialEq, Eq, Structural)]
pub enum FromNumbersError {
    /// There are more than 100 numbers
    TooManyNumbers,
    /// A line holds something that is no number
    InvalidNumber(ParseIntError),
    /// A number is above 999
    TooLarge(TryFromError),
}

/// An error of assembling from numbers with the number of its line
pub type ErrorWithLineNumber = ErrorWithLocation<FromNumbersError, LineNumber>;

impl From<ParseIntError> for FromNumbersError {
    fn from(value: ParseIntError) -> (error: Self)
        ensures
            error == FromNumbersError::InvalidNumber(value),
    {
        Self::InvalidNumber(value)
    }
}

impl vstd::std_specs::convert::FromSpecImpl<ParseIntError> for FromNumbersError {
    open spec fn obeys_from_spec() -> bool {
        true
    }

    open spec fn from_spec(value: ParseIntError) -> Self {
        FromNumbersError::InvalidNumber(value)
    }
}

impl From<TryFromError> for FromNumbersError {
    fn from(value: TryFromError) -> (error: Self)
        ensures
            error == FromNumbersError::TooLarge(value),
    {
        Self::TooLarge(value)
    }
}

impl vstd::std_specs::convert::FromSpecImpl<TryFromError> for FromNumbersError {
    open spec fn obeys_from_spec() -> bool {
        true
    }

    open spec fn from_spec(value: TryFromError) -> Self {
        FromNumbersError::TooLarge(value)
    }
}

/// What a [`NumberAssembler`] holds, as plain values
pub struct Numbers {
    /// The 100 words, of which those from `count` on are zero
    pub memory: Seq<int>,
    /// The number of words that have been assembled
    pub count: int,
}

/// The three digit number that stands alone on a line before its comment
pub open spec fn number_of(line: Seq<char>) -> Result<int, FromNumbersError> {
    match parse_unsigned(trim(code_of(line)), u16::MAX as int) {
        Ok(number) => if number < 1000 {
            Ok(number)
        } else {
            Err(FromNumbersError::TooLarge(TryFromError::TooLarge))
        },
        Err(error) => Err(FromNumbersError::InvalidNumber(error)),
    }
}

/// The numbers after one more line of text: a line with nothing but white
/// space before its comment adds nothing, and a number after the 100th is refused.
pub open spec fn with_line(numbers: Numbers, line: Seq<char>) -> Result<Numbers, FromNumbersError> {
    if trim(code_of(line)).len() == 0 {
        Ok(numbers)
    } else if numbers.count >= 100 {
        Err(FromNumbersError::TooManyNumbers)
    } else {
        match number_of(line) {
            Ok(number) => Ok(
                Numbers {
                    memory: numbers.memory.update(numbers.count, number),
                    count: numbers.count + 1,
                },
            ),
            Err(error) => Err(error),
        }
    }
}

/// The numbers after the lines of text from `done` on, or the first error
/// with the number of its line
pub open spec fn with_lines(numbers: Numbers, lines: Seq<Seq<char>>, done: int) -> Result<
    Numbers,
    ErrorWithLineNumber,
>
    decreases lines.len() - done,
{
    if done < 0 || done >= lines.len() {
        Ok(numbers)
    } else {
        match with_line(numbers, lines[done]) {
            Ok(numbers) => with_lines(numbers, lines, done + 1),
            Err(error) => Err(ErrorWithLocation(LineNumber((done + 1) as usize), error)),
        }
    }
}

/// The memory that the numbers in a text make: each at the address that
/// its place among them gives it, and zeros after them
pub open spec fn assembled_numbers(text: Seq<char>) -> Result<Seq<int>, ErrorWithLineNumber> {
    match with_lines(
        Numbers { memory: Seq::new(100, |address: int| 0int), count: 0 },
        lines_of(text),
        0,
    ) {
        Ok(numbers) => Ok(numbers.memory),
        Err(error) => Err(error),
    }
}

impl View for NumberAssembler {
    type V = Numbers;

    closed spec fn view(&self) -> Numbers {
        Numbers { memory: memory_values(self.memory), count: self.index as int }
    }
}

impl NumberAssembler {
    #[verifier::type_invariant]
    closed spec fn fits_memory(self) -> bool {
        self.index <= 100
    }

    /// Create a new [`NumberAssembler`]
    pub fn new() -> (assembler: Self)
        ensures
            assembler@ == (Numbers { memory: Seq::new(100, |address: int| 0int), count: 0 }),
    {
        let assembler = Self { memory: [ThreeDigitNumber::zero();100], index: 0 };
        assert(assembler@.memory =~= Seq::new(100, |address: int| 0int));
        assembler
    }

    /// Assembles one line with up to one number, with comments
    ///
    /// # Errors
    /// See [`FromNumbersError`]
    pub fn assemble_line(&mut self, line: &str) -> (result: Result<(), FromNumbersError>)
        ensures
            match result {
                Ok(()) => with_line(old(self)@, line@) == Ok::<Numbers, FromNumbersError>(
                    final(self)@,
                ),
                Err(error) => with_line(old(self)@, line@) == Err::<Numbers, FromNumbersError>(
                    error,
                ) && final(self)@ == old(self)@,
            },
    {
        proof {
            use_type_invariant(&*self);
        }
        // Get the part of the line before any comments, without the space around it
        let chars = chars_of(line);
        let code_len = find_either(&chars, 0, '#', ';');
        let span = trim_span(&chars, code_len);
        if span.0 == span.1 {
            return Ok(());
        }
        // Make sure there is space for a number
        if self.index == 100 {
            return Err(FromNumbersError::TooManyNumbers);
        }
        // Try to parse as a u16 then try to convert to a three digit number
        let code = chars_of(piece(line, span));
        let number = match parse_number(&code, 0xffff) {
            Ok(number) => number,
            Err(error) => {
                return Err(FromNumbersError::InvalidNumber(error));
            },
        };
        let number = match ThreeDigitNumber::try_from(number as u16) {
            Ok(number) => number,
            Err(error) => {
                return Err(FromNumbersError::TooLarge(error));
            },
        };
        self.memory[self.index] = number;
        self.index += 1;
        assert(self@.memory =~= old(self)@.memory.update(old(self)@.count, number@));
        Ok(())
    }

    /// Assembles from a list of numbers, with comments
    ///
    /// # Errors
    /// Returns a [`FromNumbersError`] with a [`LineNumber`].
    /// See [`FromNumbersError`] for possible errors
    pub fn assemble_from_text(text: &str) -> (memory: Result<Memory, ErrorWithLineNumber>)
        ensures
            match memory {
                Ok(memory) => assembled_numbers(text@) == Ok::<Seq<int>, ErrorWithLineNumber>(
                    memory_values(memory),
                ),
                Err(error) => assembled_numbers(text@) == Err::<Seq<int>, ErrorWithLineNumber>(
                    error,
                ),
            },
    {
        let mut assembler = Self::new();
        let chars = chars_of(text);
        let spans = line_spans(&chars);
        let ghost lines = lines_of(text@);
        let ghost empty = assembler@;
        let mut done: usize = 0;
        while done < spans.len()
            invariant
                done <= spans.len(),
                chars@ == text@,
                lines == lines_of(text@),
                spans_give(chars@, spans@, lines),
                empty == (Numbers { memory: Seq::new(100, |address: int| 0int), count: 0 }),
                with_lines(empty, lines, 0) == with_lines(assembler@, lines, done as int),
            decreases spans.len() - done,
        {
            let line = piece(text, spans[done]);
            match assembler.assemble_line(line) {
                Ok(()) => {},
                Err(error) => {
                    // Add the line number as the error location
                    return Err(ErrorWithLocation(LineNumber(done + 1), error));
                },
            }
            done += 1;
        }
        Ok(assembler.memory)
    }
}

} // verus!
