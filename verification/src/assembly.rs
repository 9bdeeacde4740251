use crate::num3::ThreeDigitNumber;
use crate::text::{chars_of, parse_number, parse_unsigned};
use vstd::prelude::*;

verus! {

/// The assembly instructions
#[derive(Clone, Copy, Debug, PartialEq, Eq, Hash)]
pub enum Instruction<Data> {
    /// Add the contents of the memory at the specified address / label to the register
    ADD(Data),
    /// Subtract the contents of the memory at the specified address / label from the register,
    /// setting the negative flag if the result underflows otherwise clearing it
    SUB(Data),
    /// Store the register in the memory at the specified address / label
    STO(Data),
    /// Load the memory at the specified address / label into the register
    LDA(Data),
    /// Go to the specified address / label
    BR(Data),
    /// If the register is zero, go to the specified address / label
    BRZ(Data),
    /// If the negative flag is not set, go to the specified address / label
    BRP(Data),
    /// Take an input and store it in the register
    IN,
    /// Output the register
    OUT,
    /// Take a char input and store it in the register
    INA,
    /// Output the register as a char
    OUTA,
    /// Halt the computer
    HLT,
    /// Enable extended mode
    EXT,
    /// Store the specified data
    DAT(Data),
}

/// The instructions that a program is allowed
#[derive(Clone, Copy, Debug, PartialEq, Eq, Structural, Hash)]
pub enum InstructionSet {
    /// The instructions for numbers only
    Standard,
    /// The instructions for characters as well, and the one that enables them
    Extended,
}

/// An instruction with the label of its line, if the line has one
#[derive(Clone, Copy, Debug, PartialEq, Eq, Hash)]
pub struct InstructionWithLabel<'a, Data> {
    pub label: Option<&'a str>,
    pub instruction: Instruction<Data>,
}

/// An instruction with its address or data as a number
pub type RawInstruction = Instruction<ThreeDigitNumber>;

/// What follows an instruction: a number, or the label of another line
#[derive(Clone, Copy, Debug, PartialEq, Eq, Hash)]
pub enum NumberOrLabel<'a> {
    Number(ThreeDigitNumber),
    Label(&'a str),
}

/// A word is the name of no instruction
#[derive(Clone, Copy, Debug, PartialEq, Eq, Structural)]
pub enum InvalidInstructionError {
    InvalidInstruction,
}

/// A data presence error
#[derive(Clone, Copy, Debug, PartialEq, Eq, Structural, Hash)]
pub enum Error {
    /// The instruction expected data but did not receive any
    ExpectedData,
    /// The instruction did not expect data but did receive some
    UnexpectedData,
}

/// What follows an instruction, as plain values
pub enum Operand {
    Number(int),
    Label(Seq<char>),
}

/// A line of a program, as plain values
pub struct Line {
    pub label: Option<Seq<char>>,
    pub instruction: Instruction<Operand>,
}

impl<'a> View for NumberOrLabel<'a> {
    type V = Operand;

    open spec fn view(&self) -> Operand {
        match *self {
            NumberOrLabel::Number(number) => Operand::Number(number@),
            NumberOrLabel::Label(label) => Operand::Label(label@),
        }
    }
}

impl<'a> View for InstructionWithLabel<'a, NumberOrLabel<'a>> {
    type V = Line;

    open spec fn view(&self) -> Line {
        Line {
            label: match self.label {
                Some(label) => Some(label@),
                None => None,
            },
            instruction: self.instruction.map(|data: NumberOrLabel<'a>| data@),
        }
    }
}

impl<Data> Default for Instruction<Data> {
    fn default() -> (instruction: Self)
        ensures
            instruction == Instruction::<Data>::HLT,
    {
        Instruction::HLT
    }
}

impl<'a, Data> Default for InstructionWithLabel<'a, Data> {
    fn default() -> (line: Self)
        ensures
            line.label is None,
            line.instruction == Instruction::<Data>::HLT,
    {
        InstructionWithLabel { label: None, instruction: Instruction::HLT }
    }
}

impl<Data> Instruction<Data> {
    /// The word that stands for the instruction when its address or data is zero
    pub open spec fn code(self) -> int {
        match self {
            Instruction::ADD(_) => 100,
            Instruction::SUB(_) => 200,
            Instruction::STO(_) => 300,
            Instruction::LDA(_) => 500,
            Instruction::BR(_) => 600,
            Instruction::BRZ(_) => 700,
            Instruction::BRP(_) => 800,
            Instruction::IN => 901,
            Instruction::OUT => 902,
            Instruction::INA => 911,
            Instruction::OUTA => 912,
            // Halting and storing the data zero are deliberately one and the same word
            Instruction::HLT => 0,
            Instruction::EXT => 10,
            Instruction::DAT(_) => 0,
        }
    }

    /// The instruction belongs to the extended set only
    pub open spec fn is_extension(self) -> bool {
        self is INA || self is OUTA || self is EXT
    }

    /// What follows the instruction, if anything does
    pub open spec fn data(self) -> Option<Data> {
        match self {
            Instruction::ADD(data)
            | Instruction::SUB(data)
            | Instruction::STO(data)
            | Instruction::LDA(data)
            | Instruction::BR(data)
            | Instruction::BRZ(data)
            | Instruction::BRP(data)
            | Instruction::DAT(data) => Some(data),
            _ => None,
        }
    }

    /// The same instruction with what follows it changed by `f`
    pub open spec fn map<Other>(self, f: spec_fn(Data) -> Other) -> Instruction<Other> {
        match self {
            Instruction::ADD(data) => Instruction::ADD(f(data)),
            Instruction::SUB(data) => Instruction::SUB(f(data)),
            Instruction::STO(data) => Instruction::STO(f(data)),
            Instruction::LDA(data) => Instruction::LDA(f(data)),
            Instruction::BR(data) => Instruction::BR(f(data)),
            Instruction::BRZ(data) => Instruction::BRZ(f(data)),
            Instruction::BRP(data) => Instruction::BRP(f(data)),
            Instruction::IN => Instruction::IN,
            Instruction::OUT => Instruction::OUT,
            Instruction::INA => Instruction::INA,
            Instruction::OUTA => Instruction::OUTA,
            Instruction::HLT => Instruction::HLT,
            Instruction::EXT => Instruction::EXT,
            Instruction::DAT(data) => Instruction::DAT(f(data)),
        }
    }

    /// Get the op-code of the [`Instruction`]
    pub fn op_code(&self) -> (op_code: ThreeDigitNumber)
        ensures
            op_code@ == self.code(),
    {
        let code: u16 = match self {
            Instruction::ADD(_) => 100,
            Instruction::SUB(_) => 200,
            Instruction::STO(_) => 300,
            Instruction::LDA(_) => 500,
            Instruction::BR(_) => 600,
            Instruction::BRZ(_) => 700,
            Instruction::BRP(_) => 800,
            Instruction::IN => 901,
            Instruction::OUT => 902,
            Instruction::INA => 911,
            Instruction::OUTA => 912,
            Instruction::HLT => 0,
            Instruction::EXT => 10,
            Instruction::DAT(_) => 0,
        };
        ThreeDigitNumber::from_unchecked(code)
    }

    /// Add a label to an instruction
    pub fn add_label(self, label: Option<&str>) -> (line: InstructionWithLabel<'_, Data>)
        ensures
            line.label == label,
            line.instruction == self,
    {
        InstructionWithLabel { label, instruction: self }
    }
}

/// The instruction with what follows it, or why the two do not go together
pub open spec fn insert_data<Data>(instruction: Instruction<()>, data: Option<Data>) -> Result<
    Instruction<Data>,
    Error,
> {
    match data {
        Some(data) => if instruction.data() is Some {
            Ok(instruction.map(|nothing: ()| data))
        } else {
            Err(Error::UnexpectedData)
        },
        None => if instruction.data() is Some {
            Err(Error::ExpectedData)
        } else {
            Ok(instruction.map(|nothing: ()| arbitrary()))
        },
    }
}

impl Instruction<()> {
    /// Try to insert data into an instruction
    ///
    /// # Errors
    /// See [`Error`]
    pub fn try_insert_data<Data>(self, data: Option<Data>) -> (instruction: Result<
        Instruction<Data>,
        Error,
    >)
        ensures
            instruction == insert_data(self, data),
    {
        match (self, data) {
            (Instruction::ADD(()), Some(data)) => Ok(Instruction::ADD(data)),
            (Instruction::ADD(()), None) => Err(Error::ExpectedData),
            (Instruction::SUB(()), Some(data)) => Ok(Instruction::SUB(data)),
            (Instruction::SUB(()), None) => Err(Error::ExpectedData),
            (Instruction::STO(()), Some(data)) => Ok(Instruction::STO(data)),
            (Instruction::STO(()), None) => Err(Error::ExpectedData),
            (Instruction::LDA(()), Some(data)) => Ok(Instruction::LDA(data)),
            (Instruction::LDA(()), None) => Err(Error::ExpectedData),
            (Instruction::BR(()), Some(data)) => Ok(Instruction::BR(data)),
            (Instruction::BR(()), None) => Err(Error::ExpectedData),
            (Instruction::BRP(()), Some(data)) => Ok(Instruction::BRP(data)),
            (Instruction::BRP(()), None) => Err(Error::ExpectedData),
            (Instruction::BRZ(()), Some(data)) => Ok(Instruction::BRZ(data)),
            (Instruction::BRZ(()), None) => Err(Error::ExpectedData),
            (Instruction::IN, Some(_)) => Err(Error::UnexpectedData),
            (Instruction::IN, None) => Ok(Instruction::IN),
            (Instruction::OUT, Some(_)) => Err(Error::UnexpectedData),
            (Instruction::OUT, None) => Ok(Instruction::OUT),
            (Instruction::INA, Some(_)) => Err(Error::UnexpectedData),
            (Instruction::INA, None) => Ok(Instruction::INA),
            (Instruction::OUTA, Some(_)) => Err(Error::UnexpectedData),
            (Instruction::OUTA, None) => Ok(Instruction::OUTA),
            (Instruction::HLT, Some(_)) => Err(Error::UnexpectedData),
            (Instruction::HLT, None) => Ok(Instruction::HLT),
            (Instruction::EXT, Some(_)) => Err(Error::UnexpectedData),
            (Instruction::EXT, None) => Ok(Instruction::EXT),
            (Instruction::DAT(()), Some(data)) => Ok(Instruction::DAT(data)),
            (Instruction::DAT(()), None) => Err(Error::ExpectedData),
        }
    }
}

/// The character is the given capital letter or its small letter
pub open spec fn same_letter(c: char, capital: char) -> bool {
    c == capital || c as u32 == capital as u32 + 32
}

/// The word is the given name, in capital or small letters
pub open spec fn spells(word: Seq<char>, name: Seq<char>) -> bool {
    &&& word.len() == name.len()
    &&& forall|i: int| 0 <= i < name.len() ==> same_letter(#[trigger] word[i], name[i])
}

/// The instruction that a word names
pub open spec fn mnemonic_of(word: Seq<char>) -> Option<Instruction<()>> {
    if spells(word, seq!['A', 'D', 'D']) {
        Some(Instruction::ADD(()))
    } else if spells(word, seq!['S', 'U', 'B']) {
        Some(Instruction::SUB(()))
    } else if spells(word, seq!['S', 'T', 'O']) || spells(word, seq!['S', 'T', 'A']) {
        Some(Instruction::STO(()))
    } else if spells(word, seq!['L', 'D', 'A']) {
        Some(Instruction::LDA(()))
    } else if spells(word, seq!['B', 'R']) || spells(word, seq!['B', 'R', 'A']) {
        Some(Instruction::BR(()))
    } else if spells(word, seq!['B', 'R', 'Z']) {
        Some(Instruction::BRZ(()))
    } else if spells(word, seq!['B', 'R', 'P']) {
        Some(Instruction::BRP(()))
    } else if spells(word, seq!['I', 'N']) || spells(word, seq!['I', 'N', 'P']) {
        Some(Instruction::IN)
    } else if spells(word, seq!['O', 'U', 'T']) {
        Some(Instruction::OUT)
    } else if spells(word, seq!['I', 'N', 'A']) {
        Some(Instruction::INA)
    } else if spells(word, seq!['O', 'T', 'A']) {
        Some(Instruction::OUTA)
    } else if spells(word, seq!['H', 'L', 'T']) {
        Some(Instruction::HLT)
    } else if spells(word, seq!['E', 'X', 'T']) {
        Some(Instruction::EXT)
    } else if spells(word, seq!['D', 'A', 'T']) {
        Some(Instruction::DAT(()))
    } else {
        None
    }
}

/// The instruction of a set that a word names
pub open spec fn mnemonic_in(word: Seq<char>, set: InstructionSet) -> Option<Instruction<()>> {
    match mnemonic_of(word) {
        Some(instruction) => if set == InstructionSet::Standard && instruction.is_extension() {
            None
        } else {
            Some(instruction)
        },
        None => None,
    }
}

/// The number or label that a word stands for: a number where the word is a
/// decimal number of at most three digits' worth, a label otherwise
pub open spec fn operand_of(word: Seq<char>) -> Operand {
    match parse_unsigned(word, u16::MAX as int) {
        Ok(number) => if number < 1000 {
            Operand::Number(number)
        } else {
            Operand::Label(word)
        },
        Err(_) => Operand::Label(word),
    }
}

/// Tells whether a character is the given capital letter or its small letter
fn is_letter(c: char, capital: char) -> (same: bool)
    requires
        capital as u32 <= 0x7f,
    ensures
        same == same_letter(c, capital),
{
    c == capital || c as u32 == capital as u32 + 32
}

/// Tells whether a word is the name of two letters
fn spells_two(word: &Vec<char>, first: char, second: char) -> (named: bool)
    requires
        first as u32 <= 0x7f,
        second as u32 <= 0x7f,
    ensures
        named == spells(word@, seq![first, second]),
{
    let named = word.len() == 2 && is_letter(word[0], first) && is_letter(word[1], second);
    proof {
        let name = seq![first, second];
        if named {
            assert forall|i: int| 0 <= i < name.len() implies same_letter(
                #[trigger] word@[i],
                name[i],
            ) by {
                if i == 0 {
                } else {
                }
            }
        } else if word.len() == 2 {
            assert(!same_letter(word@[0], name[0]) || !same_letter(word@[1], name[1]));
        }
    }
    named
}

/// Tells whether a word is the name of three letters
fn spells_three(word: &Vec<char>, first: char, second: char, third: char) -> (named: bool)
    requires
        first as u32 <= 0x7f,
        second as u32 <= 0x7f,
        third as u32 <= 0x7f,
    ensures
        named == spells(word@, seq![first, second, third]),
{
    let named = word.len() == 3 && is_letter(word[0], first) && is_letter(word[1], second)
        && is_letter(word[2], third);
    proof {
        let name = seq![first, second, third];
        if named {
            assert forall|i: int| 0 <= i < name.len() implies same_letter(
                #[trigger] word@[i],
                name[i],
            ) by {
                if i == 0 {
                } else if i == 1 {
                } else {
                }
            }
        } else if word.len() == 3 {
            assert(!same_letter(word@[0], name[0]) || !same_letter(word@[1], name[1])
                || !same_letter(word@[2], name[2]));
        }
    }
    named
}

/// The instruction of a set that a word names, if it names one
pub fn mnemonic(word: &Vec<char>, set: InstructionSet) -> (instruction: Option<Instruction<()>>)
    ensures
        instruction == mnemonic_in(word@, set),
{
    let extended = match set {
        InstructionSet::Standard => false,
        InstructionSet::Extended => true,
    };
    if spells_three(word, 'A', 'D', 'D') {
        Some(Instruction::ADD(()))
    } else if spells_three(word, 'S', 'U', 'B') {
        Some(Instruction::SUB(()))
    } else if spells_three(word, 'S', 'T', 'O') || spells_three(word, 'S', 'T', 'A') {
        Some(Instruction::STO(()))
    } else if spells_three(word, 'L', 'D', 'A') {
        Some(Instruction::LDA(()))
    } else if spells_two(word, 'B', 'R') || spells_three(word, 'B', 'R', 'A') {
        Some(Instruction::BR(()))
    } else if spells_three(word, 'B', 'R', 'Z') {
        Some(Instruction::BRZ(()))
    } else if spells_three(word, 'B', 'R', 'P') {
        Some(Instruction::BRP(()))
    } else if spells_two(word, 'I', 'N') || spells_three(word, 'I', 'N', 'P') {
        Some(Instruction::IN)
    } else if spells_three(word, 'O', 'U', 'T') {
        Some(Instruction::OUT)
    } else if spells_three(word, 'I', 'N', 'A') {
        if extended {
            Some(Instruction::INA)
        } else {
            None
        }
    } else if spells_three(word, 'O', 'T', 'A') {
        if extended {
            Some(Instruction::OUTA)
        } else {
            None
        }
    } else if spells_three(word, 'H', 'L', 'T') {
        Some(Instruction::HLT)
    } else if spells_three(word, 'E', 'X', 'T') {
        if extended {
            Some(Instruction::EXT)
        } else {
            None
        }
    } else if spells_three(word, 'D', 'A', 'T') {
        Some(Instruction::DAT(()))
    } else {
        None
    }
}

impl TryFrom<&str> for Instruction<()> {
    type Error = InvalidInstructionError;

    fn try_from(value: &str) -> (instruction: Result<Self, InvalidInstructionError>)
        ensures
            instruction == match mnemonic_of(value@) {
                Some(instruction) => Ok::<Self, InvalidInstructionError>(instruction),
                None => Err::<Self, InvalidInstructionError>(
                    InvalidInstructionError::InvalidInstruction,
                ),
            },
    {
        let word = chars_of(value);
        match mnemonic(&word, InstructionSet::Extended) {
            Some(instruction) => Ok(instruction),
            None => Err(InvalidInstructionError::InvalidInstruction),
        }
    }
}

impl vstd::std_specs::convert::TryFromSpecImpl<&str> for Instruction<()> {
    open spec fn obeys_try_from_spec() -> bool {
        true
    }

    open spec fn try_from_spec(value: &str) -> Result<Self, InvalidInstructionError> {
        match mnemonic_of(value@) {
            Some(instruction) => Ok(instruction),
            None => Err(InvalidInstructionError::InvalidInstruction),
        }
    }
}

impl<'a> From<&'a str> for NumberOrLabel<'a> {
    fn from(value: &'a str) -> (operand: Self)
        ensures
            operand@ == operand_of(value@),
            operand is Label ==> operand->Label_0 == value,
    {
        broadcast use ThreeDigitNumber::lemma_of_view;

        let word = chars_of(value);
        match parse_number(&word, 0xffff) {
            Ok(number) => if number < 1000 {
                NumberOrLabel::Number(ThreeDigitNumber::from_unchecked(number as u16))
            } else {
                NumberOrLabel::Label(value)
            },
            Err(_) => NumberOrLabel::Label(value),
        }
    }
}

impl<'a> vstd::std_specs::convert::FromSpecImpl<&'a str> for NumberOrLabel<'a> {
    open spec fn obeys_from_spec() -> bool {
        true
    }

    open spec fn from_spec(value: &'a str) -> Self {
        match operand_of(value@) {
            Operand::Number(number) => NumberOrLabel::Number(ThreeDigitNumber::of(number)),
            Operand::Label(_) => NumberOrLabel::Label(value),
        }
    }
}

} // verus!
