use super::tester::char_of;
use crate::assembly::InstructionSet;
use crate::computer::{memory_values, Computer, Machine, Memory, State};
use crate::num3::{ThreeDigitNumber, TryFromError};
use crate::text::{chars_of, parse_number, parse_unsigned, trim, trim_span, ParseIntError};
use vstd::pervasive::unreached;
use vstd::prelude::*;

verus! {

/// The error for [`Runner`]
#[derive(Clone, Copy, Debug, PartialEq, Eq)]
pub enum Error {
    /// The input was not a valid number
    ParseError(ParseIntError),
    /// The inputted number was too large
    TooLarge(TryFromError),
    /// Multiple characters were inputted
    MultipleCharacters,
    /// The inputted character is not a valid input character
    InvalidInputCharacter,
}

/// What a [`Runner`] needs done for it after a step
#[derive(Clone, Copy, Debug, PartialEq, Eq)]
pub enum Request {
    /// Nothing: the computer is in the given state
    Nothing(State),
    /// A line is to be read and given to `input`
    Number,
    /// A line is to be read and given to `input_char`
    Char,
    /// The number is to be put out on a line of its own
    Print(ThreeDigitNumber),
    /// The character is to be put out
    PrintChar(char),
}

/// A runner for a computer whose inputs are lines of text, as someone types them
pub struct Runner {
    computer: Computer,
}

/// The number that a typed line gives: what stands between the white space
/// at its ends must be a number of at most three digits' worth
pub open spec fn typed_number(line: Seq<char>) -> Result<int, Error> {
    match parse_unsigned(trim(line), u16::MAX as int) {
        Ok(number) => if number < 1000 {
            Ok(number)
        } else {
            Err(Error::TooLarge(TryFromError::TooLarge))
        },
        Err(error) => Err(Error::ParseError(error)),
    }
}

/// The code of the character that a typed line gives: that of its first
/// character, or of a new line where it has none. Only white space may
/// follow, and the code must be below 1000.
pub open spec fn typed_char(line: Seq<char>) -> Result<int, Error> {
    let first = if line.len() == 0 {
        '\n'
    } else {
        line[0]
    };
    if line.len() > 0 && trim(line.drop_first()).len() > 0 {
        Err(Error::MultipleCharacters)
    } else if first as u32 >= 1000 {
        Err(Error::InvalidInputCharacter)
    } else {
        Ok(first as u32 as int)
    }
}

/// The number that a typed line gives
///
/// # Errors
/// See [`Error`]
pub fn parse_input(line: &str) -> (number: Result<ThreeDigitNumber, Error>)
    ensures
        match number {
            Ok(number) => typed_number(line@) == Ok::<int, Error>(number@),
            Err(error) => typed_number(line@) == Err::<int, Error>(error),
        },
{
    let chars = chars_of(line);
    let span = trim_span(&chars, chars.len());
    assert(chars@.take(chars.len() as int) =~= chars@);
    let mut typed: Vec<char> = Vec::new();
    let mut at = span.0;
    while at < span.1
        invariant
            span.0 <= at <= span.1 <= chars.len(),
            typed@ == chars@.subrange(span.0 as int, at as int),
        decreases span.1 - at,
    {
        typed.push(chars[at]);
        assert(typed@ =~= chars@.subrange(span.0 as int, at + 1));
        at += 1;
    }
    match parse_number(&typed, 0xffff) {
        Ok(number) => match ThreeDigitNumber::try_from(number as u16) {
            Ok(number) => Ok(number),
            Err(error) => Err(Error::TooLarge(error)),
        },
        Err(error) => Err(Error::ParseError(error)),
    }
}

/// The code of the character that a typed line gives
///
/// # Errors
/// See [`Error`]
pub fn parse_char_input(line: &str) -> (code: Result<ThreeDigitNumber, Error>)
    ensures
        match code {
            Ok(code) => typed_char(line@) == Ok::<int, Error>(code@),
            Err(error) => typed_char(line@) == Err::<int, Error>(error),
        },
{
    let chars = chars_of(line);
    let mut character = '\n';
    if chars.len() > 0 {
        character = chars[0];
        let mut after: Vec<char> = Vec::new();
        let mut at: usize = 1;
        while at < chars.len()
            invariant
                1 <= at <= chars.len(),
                after@ == chars@.subrange(1, at as int),
            decreases chars.len() - at,
        {
            after.push(chars[at]);
            assert(after@ =~= chars@.subrange(1, at + 1));
            at += 1;
        }
        assert(after@ =~= chars@.drop_first());
        let span = trim_span(&after, after.len());
        assert(after@.take(after.len() as int) =~= after@);
        if span.0 < span.1 {
            return Err(Error::MultipleCharacters);
        }
    }
    let code = character as u32;
    if code >= 1000 {
        return Err(Error::InvalidInputCharacter);
    }
    Ok(ThreeDigitNumber::from_unchecked(code as u16))
}

impl View for Runner {
    type V = Machine;

    closed spec fn view(&self) -> Machine {
        self.computer@
    }
}

impl Runner {
    /// Create a new [`Runner`] from [`Memory`]
    pub fn new(memory: Memory) -> (runner: Self)
        ensures
            runner@ == Machine::fresh(memory_values(memory), InstructionSet::Extended),
    {
        Self { computer: Computer::new(memory) }
    }

    /// Create a new [`Runner`] from a [`Computer`]
    pub fn new_from_computer(computer: Computer) -> (runner: Self)
        ensures
            runner@ == computer@,
    {
        Self { computer }
    }

    /// Step the computer and say what is to be done for it: an output is taken
    /// from the computer, an input is left to `input` or `input_char`
    pub fn step(&mut self) -> (request: Request)
        ensures
            ({
                let next = old(self)@.step();
                let resumed = Machine { state: State::Running, ..next };
                match next.state {
                    State::AwaitingInput => final(self)@ == next && request == Request::Number,
                    State::AwaitingCharInput => final(self)@ == next && request == Request::Char,
                    State::AwaitingOutput => final(self)@ == resumed && request == Request::Print(
                        ThreeDigitNumber::of(next.register),
                    ),
                    State::AwaitingCharOutput => final(self)@ == resumed && char_of(next.register)
                        == Some(request->PrintChar_0) && request is PrintChar,
                    state => final(self)@ == next && request == Request::Nothing(state),
                }
            }),
    {
        broadcast use ThreeDigitNumber::lemma_of_view;

        match self.computer.step() {
            State::AwaitingInput => Request::Number,
            State::AwaitingCharInput => Request::Char,
            State::AwaitingOutput => match self.computer.output() {
                Ok(number) => Request::Print(number),
                Err(_) => unreached(),
            },
            State::AwaitingCharOutput => match self.computer.output_char() {
                // Every number up to 999 is the code of a character
                Ok(number) => match char::from_u32(u16::from(number) as u32) {
                    Some(character) => Request::PrintChar(character),
                    None => unreached(),
                },
                Err(_) => unreached(),
            },
            state => Request::Nothing(state),
        }
    }

    /// Give a typed line to a computer that awaits a number
    ///
    /// # Errors
    /// See [`Error`]. A line in error leaves the computer waiting
    pub fn input(&mut self, line: &str) -> (state: Result<State, Error>)
        requires
            old(self)@.state == State::AwaitingInput,
        ensures
            match state {
                Ok(state) => typed_number(line@) is Ok && state == State::Running && final(self)@
                    == (Machine {
                    state: State::Running,
                    register: typed_number(line@)->Ok_0,
                    ..old(self)@
                }),
                Err(error) => typed_number(line@) == Err::<int, Error>(error) && final(self)@
                    == old(self)@,
            },
    {
        match parse_input(line) {
            Ok(number) => match self.computer.input(number) {
                Ok(()) => Ok(self.computer.state()),
                Err(_) => unreached(),
            },
            Err(error) => Err(error),
        }
    }

    /// Give a typed line to a computer that awaits a character
    ///
    /// # Errors
    /// See [`Error`]. A line in error leaves the computer waiting
    pub fn input_char(&mut self, line: &str) -> (state: Result<State, Error>)
        requires
            old(self)@.state == State::AwaitingCharInput,
        ensures
            match state {
                Ok(state) => typed_char(line@) is Ok && state == State::Running && final(self)@
                    == (Machine {
                    state: State::Running,
                    register: typed_char(line@)->Ok_0,
                    ..old(self)@
                }),
                Err(error) => typed_char(line@) == Err::<int, Error>(error) && final(self)@ == old(
                    self,
                )@,
            },
    {
        match parse_char_input(line) {
            Ok(code) => match self.computer.input_char(code) {
                Ok(()) => Ok(self.computer.state()),
                Err(_) => unreached(),
            },
            Err(error) => Err(error),
        }
    }

    /// Get the [`Computer`] of the [`Runner`]
    pub fn computer(&self) -> (computer: &Computer)
        ensures
            computer@ == self@,
    {
        &self.computer
    }
}

} // verus!
