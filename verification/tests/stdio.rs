use lminc::computer::{Computer, Memory, State};
use lminc::num3::{ThreeDigitNumber, TryFromError};
use lminc::runner::stdio::{parse_char_input, parse_input, Error, Request, Runner};
use lminc::text::ParseIntError;

fn number(value: u16) -> ThreeDigitNumber {
    ThreeDigitNumber::try_from(value).expect("value is below 1000")
}

fn memory_of(program: &[u16]) -> Memory {
    let mut memory = [ThreeDigitNumber::zero(); 100];
    for (word, value) in memory.iter_mut().zip(program) {
        *word = number(*value);
    }
    memory
}

#[test]
fn typed_numbers() {
    assert_eq!(parse_input("42\n"), Ok(number(42)));
    assert_eq!(parse_input("  999 \r\n"), Ok(number(999)));
    assert_eq!(parse_input("+7"), Ok(number(7)));
    assert_eq!(
        parse_input("1000\n"),
        Err(Error::TooLarge(TryFromError::TooLarge))
    );
    assert_eq!(
        parse_input("\n"),
        Err(Error::ParseError(ParseIntError::Empty))
    );
    assert_eq!(
        parse_input("4 2\n"),
        Err(Error::ParseError(ParseIntError::InvalidDigit))
    );
    assert_eq!(
        parse_input("70000\n"),
        Err(Error::ParseError(ParseIntError::PosOverflow))
    );
}

#[test]
fn typed_chars() {
    assert_eq!(parse_char_input("a\n"), Ok(number(97)));
    assert_eq!(parse_char_input("a  \r\n"), Ok(number(97)));
    assert_eq!(parse_char_input("\n"), Ok(number(10)));
    assert_eq!(parse_char_input(""), Ok(number(10)));
    assert_eq!(parse_char_input(" \n"), Ok(number(32)));
    assert_eq!(parse_char_input("\u{3e7}\n"), Ok(number(999)));
    assert_eq!(parse_char_input("ab\n"), Err(Error::MultipleCharacters));
    assert_eq!(parse_char_input(" a\n"), Err(Error::MultipleCharacters));
    assert_eq!(
        parse_char_input("\u{3e8}\n"),
        Err(Error::InvalidInputCharacter)
    );
    // More than one character counts before what the first one is
    assert_eq!(
        parse_char_input("\u{3e8}b\n"),
        Err(Error::MultipleCharacters)
    );
}

#[test]
fn runner_asks_for_what_the_computer_needs() {
    let mut runner = Runner::new(memory_of(&[10, 901, 902, 911, 912, 400]));
    assert_eq!(runner.step(), Request::Nothing(State::Running));
    assert_eq!(runner.step(), Request::Number);
    // The request is repeated until the input is given
    assert_eq!(runner.step(), Request::Number);
    assert_eq!(
        runner.input("many\n"),
        Err(Error::ParseError(ParseIntError::InvalidDigit))
    );
    assert_eq!(runner.step(), Request::Number);
    assert_eq!(runner.input("123\n"), Ok(State::Running));
    assert_eq!(runner.step(), Request::Print(number(123)));
    assert_eq!(runner.computer().state(), State::Running);
    assert_eq!(runner.step(), Request::Char);
    assert_eq!(runner.input_char("xy\n"), Err(Error::MultipleCharacters));
    assert_eq!(runner.computer().state(), State::AwaitingCharInput);
    assert_eq!(runner.input_char("x\n"), Ok(State::Running));
    assert_eq!(runner.step(), Request::PrintChar('x'));
    assert_eq!(runner.step(), Request::Nothing(State::InvalidInstruction));
    assert_eq!(runner.step(), Request::Nothing(State::InvalidInstruction));
}

#[test]
fn runner_from_a_computer() {
    let mut computer = Computer::new(memory_of(&[599, 912, 0]));
    Computer::set_extended_mode_flag(&mut computer, true);
    Computer::get_memory_mut(&mut computer)[99] = number(999);
    let mut runner = Runner::new_from_computer(computer);
    assert_eq!(runner.computer(), &computer);
    assert_eq!(runner.step(), Request::Nothing(State::Running));
    assert_eq!(runner.step(), Request::PrintChar('\u{3e7}'));
    assert_eq!(runner.step(), Request::Nothing(State::Halted));
}
