use crate::assembly::{Instruction, InstructionSet, Line, NumberOrLabel, Operand};
use crate::computer::{memory_values, Memory};
use crate::errors::{self, InstructionNumber, LineNumber};
use crate::num3::ThreeDigitNumber;
use crate::parser::{self, label_address, parsed_text, Parser};
use vstd::prelude::*;

verus! {

/// Assembler Errors
#[derive(Clone, Copy, Debug, PartialEq, Eq, Structural)]
pub enum Error {
    /// Failed to resolve a label
    LabelResolve(parser::Error),
    /// An address was too large (> 99)
    AddressTooLarge,
    /// A label stands before more than one line
    MultipleAssignment,
}

/// An assembler error with the number of the instruction at which it arose
pub type ErrorWithInstructionNumber = errors::ErrorWithLocation<Error, InstructionNumber>;

impl From<parser::Error> for Error {
    fn from(value: parser::Error) -> (error: Self)
        ensures
            error == Error::LabelResolve(value),
    {
        Self::LabelResolve(value)
    }
}

impl vstd::std_specs::convert::FromSpecImpl<parser::Error> for Error {
    open spec fn obeys_from_spec() -> bool {
        true
    }

    open spec fn from_spec(value: parser::Error) -> Self {
        Error::LabelResolve(value)
    }
}

/// The number that follows an instruction in a program. A label stands for
/// the address of the first line that has it; a number must be an address
/// below 100, unless it is data.
pub open spec fn resolved(operand: Operand, lines: Seq<Line>, is_data: bool) -> Result<int, Error> {
    match operand {
        Operand::Label(label) => match label_address(lines, label, 0) {
            Some(address) => Ok(address),
            None => Err(Error::LabelResolve(parser::Error::UnknownLabel)),
        },
        Operand::Number(number) => if is_data || number < 100 {
            Ok(number)
        } else {
            Err(Error::AddressTooLarge)
        },
    }
}

/// The memory word for an instruction of a program: its code plus the address
/// or data that follows it.
pub open spec fn encoded(instruction: Instruction<Operand>, lines: Seq<Line>) -> Result<int, Error> {
    match instruction.data() {
        None => Ok(instruction.code()),
        Some(operand) => match resolved(operand, lines, instruction is DAT) {
            Ok(number) => Ok(instruction.code() + number),
            Err(error) => Err(error),
        },
    }
}

/// The line has a label that an earlier line has too
pub open spec fn repeats_label(lines: Seq<Line>, index: int) -> bool {
    match lines[index].label {
        Some(label) => label_address(lines, label, 0) != Some(index),
        None => false,
    }
}

/// The first line from `from` on that has the label of an earlier line, or the number of lines
pub open spec fn first_repeated_label(lines: Seq<Line>, from: int) -> int
    decreases lines.len() - from,
{
    if from < 0 || from >= lines.len() {
        lines.len() as int
    } else if repeats_label(lines, from) {
        from
    } else {
        first_repeated_label(lines, from + 1)
    }
}

/// The first line from `from` on that has no memory word, or the number of lines
pub open spec fn first_unencoded(lines: Seq<Line>, from: int) -> int
    decreases lines.len() - from,
{
    if from < 0 || from >= lines.len() {
        lines.len() as int
    } else if encoded(lines[from].instruction, lines) is Err {
        from
    } else {
        first_unencoded(lines, from + 1)
    }
}

/// The memory that a program of at most 100 lines assembles to: the word of
/// each line at its address, and zeros after them. A program in which a label
/// stands before two lines is refused at the second of them; otherwise the
/// first line without a memory word is refused.
pub open spec fn assembled(lines: Seq<Line>) -> Result<Seq<int>, ErrorWithInstructionNumber> {
    let repeated = first_repeated_label(lines, 0);
    let failed = first_unencoded(lines, 0);
    if repeated < lines.len() {
        Err(
            errors::ErrorWithLocation(
                InstructionNumber((repeated + 1) as usize),
                Error::MultipleAssignment,
            ),
        )
    } else if failed < lines.len() {
        Err(
            errors::ErrorWithLocation(
                InstructionNumber((failed + 1) as usize),
                encoded(lines[failed].instruction, lines)->Err_0,
            ),
        )
    } else {
        Ok(
            Seq::new(
                100,
                |address: int|
                    if address < lines.len() {
                        encoded(lines[address].instruction, lines)->Ok_0
                    } else {
                        0
                    },
            ),
        )
    }
}

/// The memory that the program in a text assembles to, or why the text holds
/// no program of the given set of instructions, or why the program does not
/// assemble
pub open spec fn assembled_text(text: Seq<char>, set: InstructionSet) -> Result<
    Result<Seq<int>, ErrorWithInstructionNumber>,
    parser::ErrorWithLocation<LineNumber>,
> {
    match parsed_text(text, set) {
        Ok(lines) => Ok(assembled(lines)),
        Err(error) => Err(error),
    }
}

/// The address or data that follows an instruction, as a number
fn resolve(data: NumberOrLabel, parser: &Parser, is_data: bool) -> (number: Result<u16, Error>)
    ensures
        match number {
            Ok(number) => resolved(data@, parser@, is_data) == Ok::<int, Error>(number as int)
                && number < 1000 && (is_data || number < 100),
            Err(error) => resolved(data@, parser@, is_data) == Err::<int, Error>(error),
        },
{
    match data {
        NumberOrLabel::Label(label) => {
            match parser.resolve_label(label) {
                Ok(address) => Ok(u16::from(address)),
                Err(error) => Err(Error::LabelResolve(error)),
            }
        },
        NumberOrLabel::Number(number) => {
            if is_data || number.is_2_digit() {
                Ok(u16::from(number))
            } else {
                Err(Error::AddressTooLarge)
            }
        },
    }
}

/// Assemble one parsed instruction
///
/// # Errors
/// See [`Error`]
pub fn assemble_instruction(instruction: Instruction<NumberOrLabel>, parser: &Parser) -> (word:
    Result<ThreeDigitNumber, Error>)
    ensures
        match word {
            Ok(word) => encoded(instruction.map(|data: NumberOrLabel| data@), parser@) == Ok::<
                int,
                Error,
            >(word@),
            Err(error) => encoded(instruction.map(|data: NumberOrLabel| data@), parser@) == Err::<
                int,
                Error,
            >(error),
        },
{
    let op_code = u16::from(instruction.op_code());
    match instruction {
        Instruction::ADD(data)
        | Instruction::SUB(data)
        | Instruction::STO(data)
        | Instruction::LDA(data)
        | Instruction::BR(data)
        | Instruction::BRZ(data)
        | Instruction::BRP(data) => {
            match resolve(data, parser, false) {
                Ok(address) => Ok(ThreeDigitNumber::from_unchecked(op_code + address)),
                Err(error) => Err(error),
            }
        },
        Instruction::IN
        | Instruction::OUT
        | Instruction::HLT
        | Instruction::INA
        | Instruction::OUTA
        | Instruction::EXT => Ok(ThreeDigitNumber::from_unchecked(op_code)),
        Instruction::DAT(data) => {
            match resolve(data, parser, true) {
                Ok(data) => Ok(ThreeDigitNumber::from_unchecked(op_code + data)),
                Err(error) => Err(error),
            }
        },
    }
}

/// Assemble from parsed assembly
///
/// # Errors
/// See [`Error`]
pub fn assemble_from_parser(parser: Parser) -> (memory: Result<Memory, ErrorWithInstructionNumber>)
    ensures
        match memory {
            Ok(memory) => assembled(parser@) == Ok::<Seq<int>, ErrorWithInstructionNumber>(
                memory_values(memory),
            ),
            Err(error) => assembled(parser@) == Err::<Seq<int>, ErrorWithInstructionNumber>(error),
        },
{
    let ghost lines = parser@;
    let count = parser.len();

    // First pass: no label may stand before two lines
    let mut labelled = parser.iter();
    let mut index: usize = 0;
    while index < count
        invariant
            index <= count <= 100,
            count == lines.len(),
            lines == parser@,
            labelled.lines() == lines,
            labelled.position() == index,
            first_repeated_label(lines, 0) == first_repeated_label(lines, index as int),
        decreases count - index,
    {
        match labelled.next() {
            None => {},
            Some(line) => {
                if let Some(label) = line.label {
                    match parser.resolve_label(label) {
                        Ok(address) => {
                            if u16::from(address) as usize != index {
                                return Err(
                                    errors::ErrorWithLocation(
                                        InstructionNumber(index + 1),
                                        Error::MultipleAssignment,
                                    ),
                                );
                            }
                        },
                        Err(_) => {
                            proof {
                                lemma_label_found(lines, label@, 0, index as int);
                            }
                        },
                    }
                }
            },
        }
        index += 1;
    }

    // Second pass: the memory word of each line
    let mut memory: Memory = [ThreeDigitNumber::zero();100];
    let mut instructions = parser.iter();
    let mut index: usize = 0;
    while index < count
        invariant
            index <= count <= 100,
            count == lines.len(),
            lines == parser@,
            instructions.lines() == lines,
            instructions.position() == index,
            first_repeated_label(lines, 0) == lines.len(),
            first_unencoded(lines, 0) == first_unencoded(lines, index as int),
            forall|address: int|
                0 <= address < index ==> encoded(lines[address].instruction, lines) == Ok::<
                    int,
                    Error,
                >((#[trigger] memory[address])@),
            forall|address: int| index <= address < 100 ==> (#[trigger] memory[address])@ == 0,
        decreases count - index,
    {
        match instructions.next() {
            None => {},
            Some(line) => {
                match assemble_instruction(line.instruction, &parser) {
                    Ok(word) => {
                        memory[index] = word;
                    },
                    Err(error) => {
                        return Err(errors::ErrorWithLocation(InstructionNumber(index + 1), error));
                    },
                }
            },
        }
        index += 1;
    }
    assert(memory_values(memory) =~= assembled(lines)->Ok_0);
    Ok(memory)
}

/// A label that some line from `from` on has is found
proof fn lemma_label_found(lines: Seq<Line>, label: Seq<char>, from: int, index: int)
    requires
        0 <= from <= index < lines.len(),
        lines[index].label == Some(label),
    ensures
        label_address(lines, label, from) is Some,
    decreases index - from,
{
    if lines[from].label != Some(label) {
        lemma_label_found(lines, label, from + 1, index);
    }
}

/// Assemble from assembly text of the extended set of instructions, with comments
///
/// # Errors
/// See [`parser::Error`] and [`Error`]
pub fn assemble_from_text(text: &str) -> (memory: Result<
    Result<Memory, ErrorWithInstructionNumber>,
    parser::ErrorWithLocation<LineNumber>,
>)
    ensures
        match memory {
            Ok(Ok(memory)) => assembled_text(text@, InstructionSet::Extended) == Ok::<
                Result<Seq<int>, ErrorWithInstructionNumber>,
                parser::ErrorWithLocation<LineNumber>,
            >(Ok(memory_values(memory))),
            Ok(Err(error)) => assembled_text(text@, InstructionSet::Extended) == Ok::<
                Result<Seq<int>, ErrorWithInstructionNumber>,
                parser::ErrorWithLocation<LineNumber>,
            >(Err(error)),
            Err(error) => assembled_text(text@, InstructionSet::Extended) == Err::<
                Result<Seq<int>, ErrorWithInstructionNumber>,
                parser::ErrorWithLocation<LineNumber>,
            >(error),
        },
{
    assemble_from_text_with(text, InstructionSet::Extended)
}

/// Assemble from assembly text of the given set of instructions, with comments
///
/// # Errors
/// See [`parser::Error`] and [`Error`]
pub fn assemble_from_text_with(text: &str, set: InstructionSet) -> (memory: Result<
    Result<Memory, ErrorWithInstructionNumber>,
    parser::ErrorWithLocation<LineNumber>,
>)
    ensures
        match memory {
            Ok(Ok(memory)) => assembled_text(text@, set) == Ok::<
                Result<Seq<int>, ErrorWithInstructionNumber>,
                parser::ErrorWithLocation<LineNumber>,
            >(Ok(memory_values(memory))),
            Ok(Err(error)) => assembled_text(text@, set) == Ok::<
                Result<Seq<int>, ErrorWithInstructionNumber>,
                parser::ErrorWithLocation<LineNumber>,
            >(Err(error)),
            Err(error) => assembled_text(text@, set) == Err::<
                Result<Seq<int>, ErrorWithInstructionNumber>,
                parser::ErrorWithLocation<LineNumber>,
            >(error),
        },
{
    match Parser::parse_text_with(text, set) {
        Ok(parser) => Ok(assemble_from_parser(parser)),
        Err(error) => Err(error),
    }
}

} // verus!
