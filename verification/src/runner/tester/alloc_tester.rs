use super::{values, Script, Test};
use crate::assembly::InstructionSet;
use crate::errors::{self, LineNumber};
use crate::num3::ThreeDigitNumber;
use crate::text::{
    chars_of, line_spans, lines_of, parse_number, parse_unsigned, part_spans, parts_of, piece,
    spans_give, text_of, ParseIntError,
};
use std::collections::VecDeque;
use vstd::prelude::*;

verus! {

/// A test for programs that holds its inputs and outputs in queues
pub type StdTest<'a> = Test<'a>;

/// CSV parsing errors
#[derive(Clone, Copy, Debug, PartialEq, Eq)]
pub enum CSVError {
    /// A line did not have exactly 4 sections, or 6 with char inputs and outputs
    NumberOfSections(usize),
    /// The max_cycles entry was not a valid number
    InvalidMaxCycles(ParseIntError),
    /// An input number was not a valid number
    InvalidInputNumber(ParseIntError),
    /// An input number was too large
    InputTooLarge(u16),
    /// An output number was not a valid number
    InvalidOutputNumber(ParseIntError),
    /// An output number was too large
    OutputTooLarge(u16),
    /// An input character was not a valid input character
    InvalidCharInput(char),
    /// An output character was not a valid output character
    InvalidCharOutput(char),
}

/// A CSV parsing error with the number of its line
pub type CSVErrorWithLineNumber = errors::ErrorWithLocation<CSVError, LineNumber>;

/// Why an entry of a list is no three digit number
pub enum EntryError {
    /// The entry is no number
    Invalid(ParseIntError),
    /// The entry is a number above 999
    TooLarge(u16),
}

/// A test as a line of CSV gives it, as plain values
pub struct Case {
    pub name: Option<Seq<char>>,
    pub max_cycles: int,
    pub script: Script,
}

/// The numbers that follow `so_far` in the entries of a list from `done` on.
/// An empty entry is passed over; the first entry that is no three digit
/// number is an error.
pub open spec fn listed(entries: Seq<Seq<char>>, done: int, so_far: Seq<int>) -> Result<
    Seq<int>,
    EntryError,
>
    decreases entries.len() - done,
{
    if done < 0 || done >= entries.len() {
        Ok(so_far)
    } else if entries[done].len() == 0 {
        listed(entries, done + 1, so_far)
    } else {
        match parse_unsigned(entries[done], u16::MAX as int) {
            Ok(number) => if number < 1000 {
                listed(entries, done + 1, so_far.push(number))
            } else {
                Err(EntryError::TooLarge(number as u16))
            },
            Err(error) => Err(EntryError::Invalid(error)),
        }
    }
}

/// The numbers in a list with commas between them
pub open spec fn numbers_of(section: Seq<char>) -> Result<Seq<int>, EntryError> {
    listed(parts_of(section, ','), 0, Seq::empty())
}

/// The codes that follow `so_far` of the characters from `done` on. The
/// first character with a code above 999 is an error.
pub open spec fn coded(chars: Seq<char>, done: int, so_far: Seq<int>) -> Result<Seq<int>, char>
    decreases chars.len() - done,
{
    if done < 0 || done >= chars.len() {
        Ok(so_far)
    } else if chars[done] as u32 >= 1000 {
        Err(chars[done])
    } else {
        coded(chars, done + 1, so_far.push(chars[done] as u32 as int))
    }
}

/// The codes of the characters of a text
pub open spec fn codes_of(section: Seq<char>) -> Result<Seq<int>, char> {
    coded(section, 0, Seq::empty())
}

/// The test that a line of CSV gives. Semicolons part its sections: the
/// name, the inputs, the outputs, then the char inputs and the char outputs
/// or, as always with the standard set of instructions, neither of them, and
/// the greatest number of cycles. The first section that is in error
/// decides, the number of cycles being the last.
pub open spec fn csv_case(line: Seq<char>, set: InstructionSet) -> Result<Case, CSVError> {
    let sections = parts_of(line, ';');
    let chars = sections.len() == 6;
    if sections.len() != 4 && !(sections.len() == 6 && set == InstructionSet::Extended) {
        Err(CSVError::NumberOfSections(sections.len() as usize))
    } else {
        match numbers_of(sections[1]) {
            Err(EntryError::Invalid(error)) => Err(CSVError::InvalidInputNumber(error)),
            Err(EntryError::TooLarge(number)) => Err(CSVError::InputTooLarge(number)),
            Ok(inputs) => match numbers_of(sections[2]) {
                Err(EntryError::Invalid(error)) => Err(CSVError::InvalidOutputNumber(error)),
                Err(EntryError::TooLarge(number)) => Err(CSVError::OutputTooLarge(number)),
                Ok(outputs) => match if chars {
                    codes_of(sections[3])
                } else {
                    Ok(Seq::empty())
                } {
                    Err(character) => Err(CSVError::InvalidCharInput(character)),
                    Ok(char_inputs) => match if chars {
                        codes_of(sections[4])
                    } else {
                        Ok(Seq::empty())
                    } {
                        Err(character) => Err(CSVError::InvalidCharOutput(character)),
                        Ok(char_outputs) => match parse_unsigned(
                            sections[sections.len() - 1],
                            u32::MAX as int,
                        ) {
                            Err(error) => Err(CSVError::InvalidMaxCycles(error)),
                            Ok(max_cycles) => Ok(
                                Case {
                                    name: if sections[0].len() == 0 {
                                        None
                                    } else {
                                        Some(sections[0])
                                    },
                                    max_cycles,
                                    script: Script { inputs, outputs, char_inputs, char_outputs },
                                },
                            ),
                        },
                    },
                },
            },
        }
    }
}

/// The numbers in a list with commas between them
fn numbers_in(section: &str) -> (numbers: Result<VecDeque<ThreeDigitNumber>, EntryError>)
    ensures
        match numbers {
            Ok(numbers) => numbers_of(section@) == Ok::<Seq<int>, EntryError>(values(numbers)),
            Err(error) => numbers_of(section@) == Err::<Seq<int>, EntryError>(error),
        },
{
    let chars = chars_of(section);
    let spans = part_spans(&chars, ',');
    let ghost entries = parts_of(section@, ',');
    let mut numbers: VecDeque<ThreeDigitNumber> = VecDeque::new();
    let mut done: usize = 0;
    assert(values(numbers) =~= Seq::<int>::empty());
    while done < spans.len()
        invariant
            done <= spans.len(),
            chars@ == section@,
            entries == parts_of(section@, ','),
            spans_give(chars@, spans@, entries),
            numbers_of(section@) == listed(entries, done as int, values(numbers)),
        decreases spans.len() - done,
    {
        let span = spans[done];
        if span.0 < span.1 {
            let entry = chars_of(piece(section, span));
            match parse_number(&entry, 0xffff) {
                Ok(number) => {
                    if number >= 1000 {
                        return Err(EntryError::TooLarge(number as u16));
                    }
                    let ghost before = values(numbers);
                    numbers.push_back(ThreeDigitNumber::from_unchecked(number as u16));
                    assert(values(numbers) =~= before.push(number as int));
                },
                Err(error) => {
                    return Err(EntryError::Invalid(error));
                },
            }
        }
        done += 1;
    }
    Ok(numbers)
}

/// The codes of the characters of a text
fn codes_in(section: &str) -> (codes: Result<VecDeque<ThreeDigitNumber>, char>)
    ensures
        match codes {
            Ok(codes) => codes_of(section@) == Ok::<Seq<int>, char>(values(codes)),
            Err(character) => codes_of(section@) == Err::<Seq<int>, char>(character),
        },
{
    let chars = chars_of(section);
    let mut codes: VecDeque<ThreeDigitNumber> = VecDeque::new();
    let mut done: usize = 0;
    assert(values(codes) =~= Seq::<int>::empty());
    while done < chars.len()
        invariant
            done <= chars.len(),
            chars@ == section@,
            codes_of(section@) == coded(chars@, done as int, values(codes)),
        decreases chars.len() - done,
    {
        let character = chars[done];
        let code = character as u32;
        if code >= 1000 {
            return Err(character);
        }
        let ghost before = values(codes);
        codes.push_back(ThreeDigitNumber::from_unchecked(code as u16));
        assert(values(codes) =~= before.push(code as int));
        done += 1;
    }
    Ok(codes)
}

impl<'a> Test<'a> {
    /// Creates a new test from a line of csv in the format
    /// `name;comma separated inputs;comma separated outputs;[non-separated char inputs;non-separated char outputs;]maximum cycles`,
    /// where the contents of the `[..]` is optional
    ///
    /// # Errors
    /// See [`CSVError`]
    pub fn from_csv_line(text: &'a str) -> (test: Result<Self, CSVError>)
        ensures
            match test {
                Ok(test) => csv_case(text@, InstructionSet::Extended) == Ok::<Case, CSVError>(
                    Case {
                        name: text_of(test.name),
                        max_cycles: test.max_cycles as int,
                        script: test@,
                    },
                ),
                Err(error) => csv_case(text@, InstructionSet::Extended) == Err::<Case, CSVError>(
                    error,
                ),
            },
    {
        Self::from_csv_line_with(text, InstructionSet::Extended)
    }

    /// Creates a new test from a line of csv as `from_csv_line` does, for a
    /// program of the given set of instructions: with the standard set, a
    /// line has no sections for char inputs and char outputs
    ///
    /// # Errors
    /// See [`CSVError`]
    pub fn from_csv_line_with(text: &'a str, set: InstructionSet) -> (test: Result<Self, CSVError>)
        ensures
            match test {
                Ok(test) => csv_case(text@, set) == Ok::<Case, CSVError>(
                    Case {
                        name: text_of(test.name),
                        max_cycles: test.max_cycles as int,
                        script: test@,
                    },
                ),
                Err(error) => csv_case(text@, set) == Err::<Case, CSVError>(error),
            },
    {
        let chars = chars_of(text);
        let sections = part_spans(&chars, ';');
        let number_of_sections = sections.len();
        let char_io = number_of_sections == 6;
        let extended = match set {
            InstructionSet::Standard => false,
            InstructionSet::Extended => true,
        };
        if number_of_sections != 4 && !(char_io && extended) {
            return Err(CSVError::NumberOfSections(number_of_sections));
        }
        let name = piece(text, sections[0]);
        let inputs = match numbers_in(piece(text, sections[1])) {
            Ok(inputs) => inputs,
            Err(EntryError::Invalid(error)) => {
                return Err(CSVError::InvalidInputNumber(error));
            },
            Err(EntryError::TooLarge(number)) => {
                return Err(CSVError::InputTooLarge(number));
            },
        };
        let outputs = match numbers_in(piece(text, sections[2])) {
            Ok(outputs) => outputs,
            Err(EntryError::Invalid(error)) => {
                return Err(CSVError::InvalidOutputNumber(error));
            },
            Err(EntryError::TooLarge(number)) => {
                return Err(CSVError::OutputTooLarge(number));
            },
        };
        let mut char_inputs: VecDeque<ThreeDigitNumber> = VecDeque::new();
        let mut char_outputs: VecDeque<ThreeDigitNumber> = VecDeque::new();
        assert(values(char_inputs) =~= Seq::<int>::empty());
        assert(values(char_outputs) =~= Seq::<int>::empty());
        if char_io {
            char_inputs = match codes_in(piece(text, sections[3])) {
                Ok(codes) => codes,
                Err(character) => {
                    return Err(CSVError::InvalidCharInput(character));
                },
            };
            char_outputs = match codes_in(piece(text, sections[4])) {
                Ok(codes) => codes,
                Err(character) => {
                    return Err(CSVError::InvalidCharOutput(character));
                },
            };
        }
        let last = chars_of(piece(text, sections[number_of_sections - 1]));
        let max_cycles = match parse_number(&last, 0xffff_ffff) {
            Ok(max_cycles) => max_cycles as u32,
            Err(error) => {
                return Err(CSVError::InvalidMaxCycles(error));
            },
        };
        Ok(
            Test {
                name: if sections[0].0 == sections[0].1 {
                    None
                } else {
                    Some(name)
                },
                max_cycles,
                inputs,
                outputs,
                char_inputs,
                char_outputs,
            },
        )
    }

    /// Creates the tests from CSV text, one for each line.
    /// See `from_csv_line` for format and errors
    ///
    /// # Errors
    /// A line that gives no test gives a [`CSVError`] with its [`LineNumber`]
    pub fn from_csv(text: &'a str) -> (tests: Vec<Result<Test<'a>, CSVErrorWithLineNumber>>)
        ensures
            csv_tests(text@, InstructionSet::Extended, tests@),
    {
        Self::from_csv_with(text, InstructionSet::Extended)
    }

    /// Creates the tests from CSV text, one for each line.
    /// See `from_csv_line_with` for format and errors
    ///
    /// # Errors
    /// A line that gives no test gives a [`CSVError`] with its [`LineNumber`]
    pub fn from_csv_with(text: &'a str, set: InstructionSet) -> (tests: Vec<
        Result<Test<'a>, CSVErrorWithLineNumber>,
    >)
        ensures
            csv_tests(text@, set, tests@),
    {
        let chars = chars_of(text);
        let spans = line_spans(&chars);
        let mut tests: Vec<Result<Test<'a>, CSVErrorWithLineNumber>> = Vec::new();
        let mut done: usize = 0;
        while done < spans.len()
            invariant
                done <= spans.len(),
                chars@ == text@,
                spans_give(chars@, spans@, lines_of(text@)),
                tests@.len() == done,
                forall|i: int|
                    0 <= i < tests@.len() ==> csv_test(
                        lines_of(text@)[i],
                        i + 1,
                        set,
                        #[trigger] tests@[i],
                    ),
            decreases spans.len() - done,
        {
            let test = match Self::from_csv_line_with(piece(text, spans[done]), set) {
                Ok(test) => Ok(test),
                Err(error) => Err(errors::ErrorWithLocation(LineNumber(done + 1), error)),
            };
            tests.push(test);
            done += 1;
        }
        tests
    }
}

/// The test is what a line of CSV with the given number gives
pub open spec fn csv_test(
    line: Seq<char>,
    number: int,
    set: InstructionSet,
    test: Result<Test, CSVErrorWithLineNumber>,
) -> bool {
    match test {
        Ok(test) => csv_case(line, set) == Ok::<Case, CSVError>(
            Case { name: text_of(test.name), max_cycles: test.max_cycles as int, script: test@ },
        ),
        Err(error) => csv_case(line, set) == Err::<Case, CSVError>(error.1) && error.0
            == LineNumber(number as usize),
    }
}

/// The tests are what the lines of a CSV text give, one by one
pub open spec fn csv_tests(
    text: Seq<char>,
    set: InstructionSet,
    tests: Seq<Result<Test, CSVErrorWithLineNumber>>,
) -> bool {
    &&& tests.len() == lines_of(text).len()
    &&& forall|i: int|
        0 <= i < tests.len() ==> csv_test(lines_of(text)[i], i + 1, set, #[trigger] tests[i])
}

} // verus!
