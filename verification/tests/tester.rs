use lminc::assembler::assemble_from_text;
use lminc::assembly::InstructionSet;
use lminc::computer::{Computer, Memory, State};
use lminc::errors::{ErrorWithLocation, LineNumber};
use lminc::num3::ThreeDigitNumber;
use lminc::runner::tester::{AfterCycles, CSVError, StdTest, Test, TestError, TestName};
use lminc::text::ParseIntError;
use std::collections::VecDeque;

const FIBONACCI: &str = "\
start   LDA first
        ADD second
        OUT
        STO third
        LDA second
        STO first
        LDA third
        STO second
        LDA max
        SUB third
        BRP start
        HLT
first   DAT 0
second  DAT 1
third   DAT 0
max     DAT 100
";

const FIBONACCI_TESTS: &str = "fibonacci;;1,2,3,5,8,13,21,34,55,89,144;1000\n";

fn number(value: u16) -> ThreeDigitNumber {
    ThreeDigitNumber::try_from(value).expect("value is below 1000")
}

fn memory_of(program: &[u16]) -> Memory {
    let mut memory = [ThreeDigitNumber::zero(); 100];
    for (word, value) in memory.iter_mut().zip(program) {
        *word = number(*value);
    }
    memory
}

fn failure<'a>(
    name: Option<&'a str>,
    cycles: u32,
    error: TestError,
) -> Result<u32, ErrorWithLocation<ErrorWithLocation<TestError, AfterCycles>, Option<TestName<'a>>>>
{
    Err(ErrorWithLocation(
        name.map(TestName),
        ErrorWithLocation(AfterCycles(cycles), error),
    ))
}

#[test]
fn csv_line_empty() {
    let line = ";;;1";

    let test = StdTest::from_csv_line(line).expect("failed to parse csv line");

    assert_eq!(test.name, None, "Got a name from CSV line!");

    assert_eq!(test.inputs.len(), 0, "Got too many inputs from CSV line!");

    assert_eq!(test.outputs.len(), 0, "Got too many outputs from CSV line!");

    assert_eq!(
        test.char_inputs.len(),
        0,
        "Got too many char inputs from CSV line!",
    );

    assert_eq!(
        test.char_outputs.len(),
        0,
        "Got too many char outputs from CSV line!",
    );

    assert_eq!(
        test.max_cycles, 1,
        "Failed to get the max cycles from CSV line!",
    );
}

#[test]
fn csv_line() {
    let line = "name;1,2;3,4;5";

    let test = StdTest::from_csv_line(line).expect("failed to parse csv line");

    assert_eq!(test.name, Some("name"), "Failed to get name from CSV line!");

    let mut inputs = test.inputs;

    assert_eq!(
        inputs.pop_front(),
        Some(ThreeDigitNumber::from_unchecked(1)),
        "Failed to get first input from CSV line!",
    );

    assert_eq!(
        inputs.pop_front(),
        Some(ThreeDigitNumber::from_unchecked(2)),
        "Failed to get second input from CSV line!",
    );

    assert_eq!(inputs.pop_front(), None, "Got too many inputs from CSV line!");

    let mut outputs = test.outputs;

    assert_eq!(
        outputs.pop_front(),
        Some(ThreeDigitNumber::from_unchecked(3)),
        "Failed to get first output from CSV line!",
    );

    assert_eq!(
        outputs.pop_front(),
        Some(ThreeDigitNumber::from_unchecked(4)),
        "Failed to get second output from CSV line!",
    );

    assert_eq!(outputs.pop_front(), None, "Got too many outputs from CSV line!");

    assert_eq!(
        test.char_inputs.len(),
        0,
        "Got too many char inputs from CSV line!",
    );

    assert_eq!(
        test.char_outputs.len(),
        0,
        "Got too many char outputs from CSV line!",
    );

    assert_eq!(
        test.max_cycles, 5,
        "Failed to get the max cycles from CSV line!",
    );
}

#[test]
fn csv_line_extended() {
    let line = "name;1,2;3,4;ab;cd;5";

    let test = StdTest::from_csv_line(line).expect("failed to parse csv line");

    assert_eq!(test.name, Some("name"), "Failed to get name from CSV line!");

    let mut inputs = test.inputs;

    assert_eq!(
        inputs.pop_front(),
        Some(ThreeDigitNumber::from_unchecked(1)),
        "Failed to get first input from CSV line!",
    );

    assert_eq!(
        inputs.pop_front(),
        Some(ThreeDigitNumber::from_unchecked(2)),
        "Failed to get second input from CSV line!",
    );

    assert_eq!(inputs.pop_front(), None, "Got too many inputs from CSV line!");

    let mut outputs = test.outputs;

    assert_eq!(
        outputs.pop_front(),
        Some(ThreeDigitNumber::from_unchecked(3)),
        "Failed to get first output from CSV line!",
    );

    assert_eq!(
        outputs.pop_front(),
        Some(ThreeDigitNumber::from_unchecked(4)),
        "Failed to get second output from CSV line!",
    );

    assert_eq!(outputs.pop_front(), None, "Got too many outputs from CSV line!");

    let mut char_inputs = test.char_inputs;

    assert_eq!(
        char_inputs.pop_front(),
        Some(ThreeDigitNumber::from_unchecked(b'a'.into())),
        "Failed to get first char input from CSV line!",
    );

    assert_eq!(
        char_inputs.pop_front(),
        Some(ThreeDigitNumber::from_unchecked(b'b'.into())),
        "Failed to get second char input from CSV line!",
    );

    assert_eq!(
        char_inputs.pop_front(),
        None,
        "Got too many char inputs from CSV line!"
    );

    let mut char_outputs = test.char_outputs;

    assert_eq!(
        char_outputs.pop_front(),
        Some(ThreeDigitNumber::from_unchecked(b'c'.into())),
        "Failed to get first char output from CSV line!",
    );

    assert_eq!(
        char_outputs.pop_front(),
        Some(ThreeDigitNumber::from_unchecked(b'd'.into())),
        "Failed to get second char output from CSV line!",
    );

    assert_eq!(
        char_outputs.pop_front(),
        None,
        "Got too many char outputs from CSV line!"
    );

    assert_eq!(
        test.max_cycles, 5,
        "Failed to get the max cycles from CSV line!",
    );
}

#[test]
fn run() {
    let memory = assemble_from_text(FIBONACCI)
        .expect("failed to parse the assembly")
        .expect("failed to assemble the assembly");

    let mut computer = Computer::new(memory);

    let mut tests = StdTest::from_csv(FIBONACCI_TESTS).into_iter();

    let test = tests
        .next()
        .expect("failed to get the test")
        .expect("failed to parse the test");

    test.run(&mut computer).expect("first test failed");

    assert!(tests.next().is_none(), "Got too many tests!");
}

#[test]
fn run_counts_the_cycles() {
    // One cycle for each instruction, the halt among them
    let test = StdTest::from_csv_line(";;;100").unwrap();
    let mut computer = Computer::new(memory_of(&[0]));
    assert_eq!(test.run(&mut computer), Ok(1));
    assert_eq!(computer.state(), State::Halted);

    let test = StdTest::from_csv_line("sum;20,22;42;100").unwrap();
    let mut computer = Computer::new(memory_of(&[901, 399, 901, 199, 902, 0]));
    assert_eq!(test.run(&mut computer), Ok(6));
    assert_eq!(u16::from(computer.register()), 42);

    // A program that reaches the end of the memory is done as well
    let test = StdTest::from_csv_line(";;;200").unwrap();
    let mut computer = Computer::new(memory_of(&[599; 100]));
    assert_eq!(test.run(&mut computer), Ok(101));
    assert_eq!(computer.state(), State::ReachedEnd);
}

#[test]
fn different_output() {
    let test = StdTest::from_csv_line("sum;20,22;43;100").unwrap();
    let mut computer = Computer::new(memory_of(&[901, 399, 901, 199, 902, 0]));
    assert_eq!(
        test.run(&mut computer),
        failure(
            Some("sum"),
            4,
            TestError::DifferentOutput {
                expected: number(43),
                got: number(42)
            }
        )
    );
    // The output was taken from the computer
    assert_eq!(computer.state(), State::Running);
    assert_eq!(computer.counter(), 5);
}

#[test]
fn different_char_output() {
    let test = StdTest::from_csv_line(";;;a;b;100").unwrap();
    let mut computer = Computer::new(memory_of(&[10, 911, 912, 0]));
    assert_eq!(
        test.run(&mut computer),
        failure(
            None,
            2,
            TestError::DifferentCharOutput {
                expected: number(98),
                expected_char: Some('b'),
                got: number(97),
                got_char: Some('a')
            }
        )
    );
}

#[test]
fn run_out_of_inputs() {
    let test = StdTest::from_csv_line("short;20;42;100").unwrap();
    let mut computer = Computer::new(memory_of(&[901, 399, 901, 199, 902, 0]));
    assert_eq!(
        test.run(&mut computer),
        failure(Some("short"), 2, TestError::RunOutOfInputs)
    );
    // The computer still waits for its input
    assert_eq!(computer.state(), State::AwaitingInput);

    let test = StdTest::from_csv_line(";1;;;;100").unwrap();
    let mut computer = Computer::new(memory_of(&[10, 911, 0]));
    assert_eq!(
        test.run(&mut computer),
        failure(None, 1, TestError::RunOutOfCharInputs)
    );
}

#[test]
fn run_out_of_outputs() {
    let test = StdTest::from_csv_line(";;7;100").unwrap();
    let mut computer = Computer::new(memory_of(&[503, 902, 902, 7]));
    assert_eq!(
        test.run(&mut computer),
        failure(None, 2, TestError::RunOutOfOutputs(number(7)))
    );

    let test = StdTest::from_csv_line(";;;;;100").unwrap();
    let mut computer = Computer::new(memory_of(&[10, 503, 912, 65]));
    assert_eq!(
        test.run(&mut computer),
        failure(None, 2, TestError::RunOutOfCharOutputs(number(65), Some('A')))
    );
}

#[test]
fn run_out_of_cycles() {
    // A loop without end stops at the greatest number of cycles, whatever it is
    for max_cycles in [0, 1, 2, 10, 999] {
        let test = Test {
            name: Some("loop"),
            max_cycles,
            inputs: VecDeque::new(),
            outputs: VecDeque::new(),
            char_inputs: VecDeque::new(),
            char_outputs: VecDeque::new(),
        };
        let mut computer = Computer::new(memory_of(&[600]));
        assert_eq!(
            test.run(&mut computer),
            failure(Some("loop"), max_cycles, TestError::RunOutOfCycles)
        );
    }
    // A program that halts in its last cycle is in time
    let test = StdTest::from_csv_line(";;;3").unwrap();
    let mut computer = Computer::new(memory_of(&[500, 500, 0]));
    assert_eq!(test.run(&mut computer), Ok(3));
    let test = StdTest::from_csv_line(";;;2").unwrap();
    let mut computer = Computer::new(memory_of(&[500, 500, 0]));
    assert_eq!(
        test.run(&mut computer),
        failure(None, 2, TestError::RunOutOfCycles)
    );
}

#[test]
fn expected_more() {
    let mut computer = Computer::new(memory_of(&[0]));
    let test = StdTest::from_csv_line("a;1;2;3;4;100").unwrap();
    assert_eq!(
        test.run(&mut computer),
        failure(Some("a"), 1, TestError::ExpectedMoreInputs)
    );
    computer.reset();
    let test = StdTest::from_csv_line("b;;2;3;4;100").unwrap();
    assert_eq!(
        test.run(&mut computer),
        failure(Some("b"), 1, TestError::ExpectedMoreOutputs)
    );
    computer.reset();
    let test = StdTest::from_csv_line("c;;;3;4;100").unwrap();
    assert_eq!(
        test.run(&mut computer),
        failure(Some("c"), 1, TestError::ExpectedMoreCharInputs)
    );
    computer.reset();
    let test = StdTest::from_csv_line("d;;;;4;100").unwrap();
    assert_eq!(
        test.run(&mut computer),
        failure(Some("d"), 1, TestError::ExpectedMoreCharOutputs)
    );
}

#[test]
fn computer_error() {
    let test = StdTest::from_csv_line("bad;;;100").unwrap();
    let mut computer = Computer::new(memory_of(&[500, 400]));
    assert_eq!(
        test.run(&mut computer),
        failure(
            Some("bad"),
            1,
            TestError::ComputerError(State::InvalidInstruction)
        )
    );
}

#[test]
fn step_by_step() {
    let mut test = StdTest::from_csv_line("steps;5;5;2").unwrap();
    let mut computer = Computer::new(memory_of(&[901, 902, 0]));
    let mut cycles = 0;
    assert_eq!(Test::step(&mut computer, &mut test, &mut cycles), Ok(false));
    assert_eq!(cycles, 1);
    assert_eq!(test.inputs.len(), 0);
    assert_eq!(u16::from(computer.register()), 5);
    assert_eq!(computer.state(), State::Running);
    assert_eq!(Test::step(&mut computer, &mut test, &mut cycles), Ok(false));
    assert_eq!(cycles, 2);
    assert_eq!(test.outputs.len(), 0);
    assert_eq!(
        Test::step(&mut computer, &mut test, &mut cycles),
        Err(ErrorWithLocation(
            Some(TestName("steps")),
            ErrorWithLocation(AfterCycles(2), TestError::RunOutOfCycles)
        ))
    );
    assert_eq!(cycles, 2);
    assert_eq!(computer.counter(), 2);
    test.max_cycles = 3;
    assert_eq!(Test::step(&mut computer, &mut test, &mut cycles), Ok(true));
    assert_eq!(cycles, 3);
}

#[test]
fn csv_numbers_of_sections() {
    for (line, sections) in [
        ("", 1),
        ("a", 1),
        (";", 2),
        ("a;b;c", 3),
        ("a;;;;1", 5),
        (";;;;;;", 7),
        ("a;1;2;b;c;3;", 7),
    ] {
        assert_eq!(
            StdTest::from_csv_line(line),
            Err(CSVError::NumberOfSections(sections)),
            "{line}"
        );
    }
}

#[test]
fn csv_errors() {
    assert_eq!(
        StdTest::from_csv_line("a;1,x;2;3"),
        Err(CSVError::InvalidInputNumber(ParseIntError::InvalidDigit))
    );
    assert_eq!(
        StdTest::from_csv_line("a;1, 2;2;3"),
        Err(CSVError::InvalidInputNumber(ParseIntError::InvalidDigit))
    );
    assert_eq!(
        StdTest::from_csv_line("a;1,70000;2;3"),
        Err(CSVError::InvalidInputNumber(ParseIntError::PosOverflow))
    );
    assert_eq!(
        StdTest::from_csv_line("a;999,1000;2;3"),
        Err(CSVError::InputTooLarge(1000))
    );
    assert_eq!(
        StdTest::from_csv_line("a;1;2,-3;3"),
        Err(CSVError::InvalidOutputNumber(ParseIntError::InvalidDigit))
    );
    assert_eq!(
        StdTest::from_csv_line("a;1;2,65535;3"),
        Err(CSVError::OutputTooLarge(65535))
    );
    assert_eq!(
        StdTest::from_csv_line("a;1;2;a\u{3e8};b;3"),
        Err(CSVError::InvalidCharInput('\u{3e8}'))
    );
    assert_eq!(
        StdTest::from_csv_line("a;1;2;a;b\u{1f600};3"),
        Err(CSVError::InvalidCharOutput('\u{1f600}'))
    );
    assert_eq!(
        StdTest::from_csv_line("a;1;2;"),
        Err(CSVError::InvalidMaxCycles(ParseIntError::Empty))
    );
    assert_eq!(
        StdTest::from_csv_line("a;1;2;4294967296"),
        Err(CSVError::InvalidMaxCycles(ParseIntError::PosOverflow))
    );
    assert_eq!(
        StdTest::from_csv_line("a;1;2;3 "),
        Err(CSVError::InvalidMaxCycles(ParseIntError::InvalidDigit))
    );
    // The earlier section decides
    assert_eq!(
        StdTest::from_csv_line("a;x;y;z"),
        Err(CSVError::InvalidInputNumber(ParseIntError::InvalidDigit))
    );
    assert_eq!(
        StdTest::from_csv_line("a;1;y;z"),
        Err(CSVError::InvalidOutputNumber(ParseIntError::InvalidDigit))
    );
}

#[test]
fn csv_values() {
    let test = StdTest::from_csv_line("a b;,1,,+2,;999;\u{3e7} ,;;4294967295").unwrap();
    assert_eq!(test.name, Some("a b"));
    assert_eq!(test.inputs, VecDeque::from(vec![number(1), number(2)]));
    assert_eq!(test.outputs, VecDeque::from(vec![number(999)]));
    assert_eq!(
        test.char_inputs,
        VecDeque::from(vec![number(999), number(32), number(44)])
    );
    assert_eq!(test.char_outputs, VecDeque::new());
    assert_eq!(test.max_cycles, u32::MAX);
}

#[test]
fn csv_lines() {
    let tests = StdTest::from_csv("one;;;1\r\n\ntwo;1;2;3\nthree;;;x");
    assert_eq!(tests.len(), 4);
    assert_eq!(tests[0].as_ref().map(|test| test.name), Ok(Some("one")));
    assert_eq!(
        tests[1],
        Err(ErrorWithLocation(
            LineNumber(2),
            CSVError::NumberOfSections(1)
        ))
    );
    assert_eq!(tests[2].as_ref().map(|test| test.max_cycles), Ok(3));
    assert_eq!(
        tests[3],
        Err(ErrorWithLocation(
            LineNumber(4),
            CSVError::InvalidMaxCycles(ParseIntError::InvalidDigit)
        ))
    );
    assert_eq!(StdTest::from_csv("").len(), 0);
}

#[test]
fn csv_for_the_standard_set() {
    assert_eq!(
        StdTest::from_csv_line_with("a;1;2;b;c;3", InstructionSet::Standard),
        Err(CSVError::NumberOfSections(6))
    );
    assert_eq!(
        StdTest::from_csv_line_with("a;1;2;3", InstructionSet::Standard),
        StdTest::from_csv_line("a;1;2;3")
    );
    assert_eq!(
        StdTest::from_csv_line_with("a;1;2;b;c;3", InstructionSet::Extended),
        StdTest::from_csv_line("a;1;2;b;c;3")
    );
    assert_eq!(
        StdTest::from_csv_with("a;;;1\nb;;;;;2\n", InstructionSet::Standard)
            .into_iter()
            .map(|test| test.map(|test| test.max_cycles))
            .collect::<Vec<_>>(),
        vec![
            Ok(1),
            Err(ErrorWithLocation(
                LineNumber(2),
                CSVError::NumberOfSections(6)
            ))
        ]
    );
}
