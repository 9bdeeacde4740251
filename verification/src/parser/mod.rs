use crate::assembly::{
    insert_data, mnemonic, mnemonic_in, operand_of, Instruction, InstructionSet,
    InstructionWithLabel, Line, NumberOrLabel, Operand,
};
use crate::errors::{self, InstructionNumber, LineNumber};
use crate::helper::try_collect_into_array;
use crate::num3::ThreeDigitNumber;
use crate::text::{
    chars_of, code_of, find_either, line_spans, lines_of, piece, same_text, text_of, word_spans,
    words_of,
};
use vstd::prelude::*;

mod error;

pub use error::{Error, ErrorWithLocation};

verus! {

/// The line that up to three words make where a set of instructions is
/// allowed, or what is wrong with them.
///
/// The first word names an instruction or is a label, and no number. The
/// second names an instruction, unless the first did, or follows one. The
/// third follows an instruction, and only where the second did not.
pub open spec fn parse_words(
    first: Seq<char>,
    second: Option<Seq<char>>,
    third: Option<Seq<char>>,
    set: InstructionSet,
) -> Result<Line, Error> {
    let named = mnemonic_in(first, set);
    let second_named = match second {
        Some(second) => mnemonic_in(second, set),
        None => None,
    };
    let third_named = match third {
        Some(third) => mnemonic_in(third, set),
        None => None,
    };
    let second_is_data = second is Some && second_named is None;
    if named is None && operand_of(first) is Number {
        Err(Error::UnexpectedNumber)
    } else if named is Some && second_named is Some {
        Err(Error::MultipleInstructions)
    } else if third_named is Some {
        Err(Error::MultipleInstructions)
    } else if third is Some && second_is_data {
        Err(Error::TooManyWords)
    } else {
        let label = if named is None {
            Some(first)
        } else {
            None
        };
        let instruction = if named is Some {
            named
        } else {
            second_named
        };
        let data = if third is Some {
            Some(operand_of(third->0))
        } else if second_is_data {
            Some(operand_of(second->0))
        } else {
            None
        };
        match instruction {
            None => Err(Error::NoInstruction),
            Some(instruction) => match insert_data(instruction, data) {
                Ok(instruction) => Ok(Line { label, instruction }),
                Err(error) => Err(Error::DataPresence(error)),
            },
        }
    }
}

/// The word at an index, if there are that many
pub open spec fn word_at(words: Seq<Seq<char>>, index: int) -> Option<Seq<char>> {
    if 0 <= index < words.len() {
        Some(words[index])
    } else {
        None
    }
}

/// The lines of a program after one more line of text: a line without words
/// before its comment adds nothing, one with more than three is refused, and
/// so is one after the 100th line.
pub open spec fn parsed_line(parsed: Seq<Line>, line: Seq<char>, set: InstructionSet) -> Result<
    Seq<Line>,
    Error,
> {
    let words = words_of(code_of(line));
    if words.len() > 3 {
        Err(Error::TooManyWords)
    } else if words.len() == 0 {
        Ok(parsed)
    } else if parsed.len() >= 100 {
        Err(Error::TooManyInstructions)
    } else {
        match parse_words(words[0], word_at(words, 1), word_at(words, 2), set) {
            Ok(line) => Ok(parsed.push(line)),
            Err(error) => Err(error),
        }
    }
}

/// The lines of a program after the lines of text from `done` on, or the
/// first error with the number of its line
pub open spec fn parsed_lines(
    parsed: Seq<Line>,
    lines: Seq<Seq<char>>,
    done: int,
    set: InstructionSet,
) -> Result<Seq<Line>, ErrorWithLocation<LineNumber>>
    decreases lines.len() - done,
{
    if done < 0 || done >= lines.len() {
        Ok(parsed)
    } else {
        match parsed_line(parsed, lines[done], set) {
            Ok(parsed) => parsed_lines(parsed, lines, done + 1, set),
            Err(error) => Err(errors::ErrorWithLocation(LineNumber((done + 1) as usize), error)),
        }
    }
}

/// The lines of the program that a text holds, or its first error
pub open spec fn parsed_text(text: Seq<char>, set: InstructionSet) -> Result<
    Seq<Line>,
    ErrorWithLocation<LineNumber>,
> {
    parsed_lines(Seq::empty(), lines_of(text), 0, set)
}

/// The address of the first line from `from` on that has the label
pub open spec fn label_address(lines: Seq<Line>, label: Seq<char>, from: int) -> Option<int>
    decreases lines.len() - from,
{
    if from < 0 || from >= lines.len() {
        None
    } else if lines[from].label == Some(label) {
        Some(from)
    } else {
        label_address(lines, label, from + 1)
    }
}

/// Parsing the lines of a text comes to parsing those before any one of
/// them, then that line, then those after it.
pub proof fn lemma_parsed_up_to(
    parsed: Seq<Line>,
    lines: Seq<Seq<char>>,
    count: int,
    done: int,
    set: InstructionSet,
)
    requires
        0 <= done <= count < lines.len(),
        parsed_lines(parsed, lines.take(count), done, set) is Ok,
    ensures
        parsed_lines(parsed, lines, done, set) == match parsed_line(
            parsed_lines(parsed, lines.take(count), done, set)->Ok_0,
            lines[count],
            set,
        ) {
            Ok(next) => parsed_lines(next, lines, count + 1, set),
            Err(error) => Err(errors::ErrorWithLocation(LineNumber((count + 1) as usize), error)),
        },
    decreases count - done,
{
    if done < count {
        assert(lines.take(count)[done] == lines[done]);
        match parsed_line(parsed, lines[done], set) {
            Ok(next) => {
                lemma_parsed_up_to(next, lines, count, done + 1, set);
            },
            Err(_) => {},
        }
    }
}

/// A text with more than 100 lines that hold instructions is refused: where
/// the lines before one of them make a program of 100 lines and that line
/// holds up to three words, it has the error of too many instructions.
pub proof fn lemma_too_many_instructions(lines: Seq<Seq<char>>, count: int, set: InstructionSet)
    requires
        0 <= count < lines.len(),
        parsed_lines(Seq::empty(), lines.take(count), 0, set) is Ok,
        parsed_lines(Seq::empty(), lines.take(count), 0, set)->Ok_0.len() == 100,
        0 < words_of(code_of(lines[count])).len() <= 3,
    ensures
        parsed_lines(Seq::empty(), lines, 0, set) == Err::<
            Seq<Line>,
            ErrorWithLocation<LineNumber>,
        >(
            errors::ErrorWithLocation(
                LineNumber((count + 1) as usize),
                Error::TooManyInstructions,
            ),
        ),
{
    lemma_parsed_up_to(Seq::empty(), lines, count, 0, set);
}

/// A program that was parsed has at most 100 lines
pub proof fn lemma_parsed_lines_fit(
    parsed: Seq<Line>,
    lines: Seq<Seq<char>>,
    done: int,
    set: InstructionSet,
)
    requires
        parsed.len() <= 100,
    ensures
        parsed_lines(parsed, lines, done, set) is Ok ==> parsed_lines(
            parsed,
            lines,
            done,
            set,
        )->Ok_0.len() <= 100,
    decreases lines.len() - done,
{
    if 0 <= done < lines.len() {
        match parsed_line(parsed, lines[done], set) {
            Ok(next) => {
                lemma_parsed_lines_fit(next, lines, done + 1, set);
            },
            Err(_) => {},
        }
    }
}

impl<'a> InstructionWithLabel<'a, NumberOrLabel<'a>> {
    /// Parse between 1 and 3 words as an instruction of the extended set
    ///
    /// # Errors
    /// See [`Error`]
    pub fn parse(words: (&'a str, Option<&'a str>, Option<&'a str>)) -> (line: Result<Self, Error>)
        ensures
            match line {
                Ok(line) => parse_words(
                    words.0@,
                    text_of(words.1),
                    text_of(words.2),
                    InstructionSet::Extended,
                ) == Ok::<Line, Error>(line@),
                Err(error) => parse_words(
                    words.0@,
                    text_of(words.1),
                    text_of(words.2),
                    InstructionSet::Extended,
                ) == Err::<Line, Error>(error),
            },
    {
        Self::parse_with(words, InstructionSet::Extended)
    }

    /// Parse between 1 and 3 words as an instruction of the given set
    ///
    /// # Errors
    /// See [`Error`]
    pub fn parse_with(
        words: (&'a str, Option<&'a str>, Option<&'a str>),
        set: InstructionSet,
    ) -> (line: Result<Self, Error>)
        ensures
            match line {
                Ok(line) => parse_words(words.0@, text_of(words.1), text_of(words.2), set) == Ok::<
                    Line,
                    Error,
                >(line@),
                Err(error) => parse_words(words.0@, text_of(words.1), text_of(words.2), set)
                    == Err::<Line, Error>(error),
            },
    {
        let mut label: Option<&'a str> = None;
        let mut instruction: Option<Instruction<()>> = None;
        let mut data: Option<NumberOrLabel<'a>> = None;

        // The first word should be an instruction or a label
        let first = chars_of(words.0);
        match mnemonic(&first, set) {
            Some(named) => {
                instruction = Some(named);
            },
            None => {
                // Make sure the first word is not a number
                match NumberOrLabel::from(words.0) {
                    NumberOrLabel::Label(name) => {
                        label = Some(name);
                    },
                    NumberOrLabel::Number(_) => {
                        return Err(Error::UnexpectedNumber);
                    },
                }
            },
        }

        // The second word should be an instruction or data
        if let Some(second) = words.1 {
            match mnemonic(&chars_of(second), set) {
                Some(named) => {
                    if instruction.is_some() {
                        // If there was already an instruction, return an error
                        return Err(Error::MultipleInstructions);
                    }
                    instruction = Some(named);
                },
                None => {
                    data = Some(NumberOrLabel::from(second));
                },
            }
        }

        // The third word must be data
        if let Some(third) = words.2 {
            // Make sure it is not an instruction
            if mnemonic(&chars_of(third), set).is_some() {
                return Err(Error::MultipleInstructions);
            }
            if data.is_some() {
                // If there was already data, return an error
                return Err(Error::TooManyWords);
            }
            data = Some(NumberOrLabel::from(third));
        }

        match instruction {
            None => Err(Error::NoInstruction),
            Some(named) => match named.try_insert_data(data) {
                Ok(instruction) => {
                    let line = instruction.add_label(label);
                    proof {
                        let operand = match data {
                            Some(data) => Some(data@),
                            None => None,
                        };
                        assert(insert_data(named, operand) == Ok::<
                            Instruction<Operand>,
                            crate::assembly::Error,
                        >(line@.instruction));
                    }
                    Ok(line)
                },
                Err(error) => Err(Error::DataPresence(error)),
            },
        }
    }
}

/// Parse assembly text
#[derive(Clone, Copy, Debug)]
pub struct Parser<'a> {
    /// The parsed lines, of which the first `instruction_number` count
    parsed: [InstructionWithLabel<'a, NumberOrLabel<'a>>; 100],
    instruction_number: usize,
    instruction_set: InstructionSet,
}

impl<'a> View for Parser<'a> {
    type V = Seq<Line>;

    closed spec fn view(&self) -> Seq<Line> {
        Seq::new(self.instruction_number as nat, |i: int| self.parsed@[i]@)
    }
}

impl<'a> Parser<'a> {
    #[verifier::type_invariant]
    closed spec fn fits_memory(self) -> bool {
        self.instruction_number <= 100
    }

    /// The set of instructions that the parser allows
    pub closed spec fn instruction_set(&self) -> InstructionSet {
        self.instruction_set
    }

    /// Create a new [`Parser`] for the extended set of instructions
    pub fn new() -> (parser: Self)
        ensures
            parser@ == Seq::<Line>::empty(),
            parser.instruction_set() == InstructionSet::Extended,
    {
        Self::with_instruction_set(InstructionSet::Extended)
    }

    /// Create a new [`Parser`] for the given set of instructions
    pub fn with_instruction_set(set: InstructionSet) -> (parser: Self)
        ensures
            parser@ == Seq::<Line>::empty(),
            parser.instruction_set() == set,
    {
        let unused = InstructionWithLabel { label: None, instruction: Instruction::HLT };
        let parser = Self { parsed: [unused;100], instruction_number: 0, instruction_set: set };
        assert(parser@ =~= Seq::<Line>::empty());
        parser
    }

    /// Get the number of instructions parsed
    pub fn len(&self) -> (len: usize)
        ensures
            len == self@.len(),
            len <= 100,
    {
        proof {
            use_type_invariant(self);
        }
        self.instruction_number
    }

    /// Parse one line of assembly into the [`Parser`]
    ///
    /// # Errors
    /// Returns an [`Error`] with the number that the instruction would have had.
    /// See [`Error`] for possible errors
    pub fn parse_line(&mut self, line: &'a str) -> (result: Result<
        (),
        ErrorWithLocation<InstructionNumber>,
    >)
        ensures
            final(self).instruction_set() == old(self).instruction_set(),
            match result {
                Ok(()) => parsed_line(old(self)@, line@, old(self).instruction_set()) == Ok::<
                    Seq<Line>,
                    Error,
                >(final(self)@),
                Err(error) => {
                    &&& parsed_line(old(self)@, line@, old(self).instruction_set()) == Err::<
                        Seq<Line>,
                        Error,
                    >(error.1)
                    &&& error.0 == InstructionNumber((old(self)@.len() + 1) as usize)
                    &&& final(self)@ == old(self)@
                },
            },
    {
        proof {
            use_type_invariant(&*self);
        }
        let number = InstructionNumber(self.instruction_number + 1);

        // Get the part of the line before any comments, and the words in it
        let chars = chars_of(line);
        let code_len = find_either(&chars, 0, '#', ';');
        let spans = word_spans(&chars, code_len);
        // Collect the words into an array
        let words: [Option<(usize, usize)>; 3] = match try_collect_into_array(&spans) {
            Ok(words) => words,
            Err(_) => {
                return Err(errors::ErrorWithLocation(number, Error::TooManyWords));
            },
        };
        // Make sure there is a first word
        let first = match words[0] {
            Some(first) => piece(line, first),
            None => {
                return Ok(());
            },
        };
        let second = match words[1] {
            Some(second) => Some(piece(line, second)),
            None => None,
        };
        let third = match words[2] {
            Some(third) => Some(piece(line, third)),
            None => None,
        };
        // Make sure there is space for an instruction
        if self.instruction_number == 100 {
            return Err(errors::ErrorWithLocation(number, Error::TooManyInstructions));
        }

        // Parse the instruction
        match InstructionWithLabel::<NumberOrLabel>::parse_with(
            (first, second, third),
            self.instruction_set,
        ) {
            Ok(instruction) => {
                // Write the instruction
                self.parsed[self.instruction_number] = instruction;
                self.instruction_number += 1;
                assert(self@ =~= old(self)@.push(instruction@));
                Ok(())
            },
            Err(error) => Err(errors::ErrorWithLocation(number, error)),
        }
    }

    /// Parse assembly of the extended set of instructions into a [`Parser`]
    ///
    /// # Errors
    /// Returns an [`Error`] with a [`LineNumber`].
    /// See [`Error`] for possible errors
    pub fn parse_text(text: &'a str) -> (parser: Result<Self, ErrorWithLocation<LineNumber>>)
        ensures
            match parser {
                Ok(parser) => parsed_text(text@, InstructionSet::Extended) == Ok::<
                    Seq<Line>,
                    ErrorWithLocation<LineNumber>,
                >(parser@) && parser.instruction_set() == InstructionSet::Extended,
                Err(error) => parsed_text(text@, InstructionSet::Extended) == Err::<
                    Seq<Line>,
                    ErrorWithLocation<LineNumber>,
                >(error),
            },
    {
        Self::parse_text_with(text, InstructionSet::Extended)
    }

    /// Parse assembly of the given set of instructions into a [`Parser`]
    ///
    /// # Errors
    /// Returns an [`Error`] with a [`LineNumber`].
    /// See [`Error`] for possible errors
    pub fn parse_text_with(text: &'a str, set: InstructionSet) -> (parser: Result<
        Self,
        ErrorWithLocation<LineNumber>,
    >)
        ensures
            match parser {
                Ok(parser) => parsed_text(text@, set) == Ok::<
                    Seq<Line>,
                    ErrorWithLocation<LineNumber>,
                >(parser@) && parser.instruction_set() == set,
                Err(error) => parsed_text(text@, set) == Err::<
                    Seq<Line>,
                    ErrorWithLocation<LineNumber>,
                >(error),
            },
    {
        let mut parser = Self::with_instruction_set(set);
        let chars = chars_of(text);
        let spans = line_spans(&chars);
        let ghost lines = lines_of(text@);
        let mut done: usize = 0;
        while done < spans.len()
            invariant
                done <= spans.len(),
                chars@ == text@,
                lines == lines_of(text@),
                crate::text::spans_give(chars@, spans@, lines),
                parser.instruction_set() == set,
                parsed_text(text@, set) == parsed_lines(parser@, lines, done as int, set),
            decreases spans.len() - done,
        {
            let line = piece(text, spans[done]);
            match parser.parse_line(line) {
                Ok(()) => {},
                Err(error) => {
                    // Add the line number as the error location
                    return Err(errors::ErrorWithLocation(LineNumber(done + 1), error.1));
                },
            }
            done += 1;
        }
        Ok(parser)
    }

    /// Get the memory address for a label from the [`Parser`]
    ///
    /// # Errors
    /// See [`Error::UnknownLabel`]
    pub fn resolve_label(&self, label: &str) -> (address: Result<ThreeDigitNumber, Error>)
        ensures
            match address {
                Ok(address) => label_address(self@, label@, 0) == Some(address@) && address@
                    < self@.len() <= 100,
                Err(error) => error == Error::UnknownLabel && label_address(self@, label@, 0)
                    is None,
            },
    {
        proof {
            use_type_invariant(self);
        }
        let mut index: usize = 0;
        while index < self.instruction_number
            invariant
                index <= self.instruction_number <= 100,
                label_address(self@, label@, 0) == label_address(self@, label@, index as int),
            decreases self.instruction_number - index,
        {
            if let Some(name) = self.parsed[index].label {
                if same_text(name, label) {
                    return Ok(ThreeDigitNumber::from_unchecked(index as u16));
                }
            }
            index += 1;
        }
        Err(Error::UnknownLabel)
    }

    /// Create an iterator over the parsed instructions in the [`Parser`]
    pub fn iter(&'a self) -> (iter: ParsedIter<'a>)
        ensures
            iter.lines() == self@,
            iter.position() == 0,
    {
        ParsedIter { parser: self, index: 0 }
    }

    /// Convert the [`Parser`] into an iterator
    pub fn into_iter(self) -> (iter: ParsedIntoIter<'a>)
        ensures
            iter.lines() == self@,
            iter.position() == 0,
    {
        ParsedIntoIter { parser: self, index: 0 }
    }
}

/// An iterator over the parsed instructions in a [`Parser`]
#[derive(Clone, Debug)]
pub struct ParsedIter<'a> {
    parser: &'a Parser<'a>,
    index: usize,
}

impl<'a> ParsedIter<'a> {
    /// The lines that the iterator goes over
    pub closed spec fn lines(&self) -> Seq<Line> {
        self.parser@
    }

    /// The number of lines that the iterator has given
    pub closed spec fn position(&self) -> int {
        self.index as int
    }

    /// The next parsed instruction, if one is left
    pub fn next(&mut self) -> (line: Option<&'a InstructionWithLabel<'a, NumberOrLabel<'a>>>)
        ensures
            final(self).lines() == old(self).lines(),
            match line {
                Some(line) => {
                    &&& old(self).position() < old(self).lines().len()
                    &&& line@ == old(self).lines()[old(self).position()]
                    &&& final(self).position() == old(self).position() + 1
                },
                None => {
                    &&& old(self).position() >= old(self).lines().len()
                    &&& final(self).position() == old(self).position()
                },
            },
    {
        proof {
            use_type_invariant(self.parser);
        }
        if self.index >= self.parser.instruction_number {
            return None;
        }
        let next = &self.parser.parsed[self.index];
        self.index += 1;
        Some(next)
    }
}

/// An iterator over the parsed instructions from a [`Parser`]
#[derive(Clone, Debug)]
pub struct ParsedIntoIter<'a> {
    parser: Parser<'a>,
    index: usize,
}

impl<'a> ParsedIntoIter<'a> {
    /// The lines that the iterator goes over
    pub closed spec fn lines(&self) -> Seq<Line> {
        self.parser@
    }

    /// The number of lines that the iterator has given
    pub closed spec fn position(&self) -> int {
        self.index as int
    }

    /// The next parsed instruction, if one is left
    pub fn next(&mut self) -> (line: Option<InstructionWithLabel<'a, NumberOrLabel<'a>>>)
        ensures
            final(self).lines() == old(self).lines(),
            match line {
                Some(line) => {
                    &&& old(self).position() < old(self).lines().len()
                    &&& line@ == old(self).lines()[old(self).position()]
                    &&& final(self).position() == old(self).position() + 1
                },
                None => {
                    &&& old(self).position() >= old(self).lines().len()
                    &&& final(self).position() == old(self).position()
                },
            },
    {
        proof {
            use_type_invariant(&self.parser);
        }
        if self.index >= self.parser.instruction_number {
            return None;
        }
        let next = self.parser.parsed[self.index];
        self.index += 1;
        Some(next)
    }
}

} // verus!
