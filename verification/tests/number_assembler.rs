use lminc::errors::{ErrorWithLocation, LineNumber};
use lminc::num3::TryFromError;
use lminc::number_assembler::{FromNumbersError, NumberAssembler};
use lminc::text::ParseIntError;

const FIBONACCI_NUMBERS: &str = "\
605 # go to the start
0   # first
1   # second
0   # third
100 # max
501
102
902
303
502
301
503
302
204
816
605
";

fn assembled(text: &str) -> Vec<u16> {
    NumberAssembler::assemble_from_text(text)
        .expect("failed to assemble")
        .iter()
        .map(|number| u16::from(*number))
        .collect()
}

fn padded(program: &[u16]) -> Vec<u16> {
    let mut memory = vec![0; 100];
    memory[..program.len()].copy_from_slice(program);
    memory
}

#[test]
fn empty_numbers() {
    let numbers = "";
    let memory = NumberAssembler::assemble_from_text(numbers).expect("failed to assemble");

    assert!(
        memory.iter().all(|num| u16::from(*num) == 0),
        "Could not assemble empty numbers!"
    );
}

#[test]
fn full_numbers() {
    let numbers = "902\n".repeat(100);
    let memory = NumberAssembler::assemble_from_text(&numbers).expect("failed to assemble");

    assert!(
        memory.iter().all(|num| u16::from(*num) == 902),
        "Could not assemble full numbers!"
    );
}

#[test]
fn fibonacci_numbers() {
    let memory =
        NumberAssembler::assemble_from_text(FIBONACCI_NUMBERS).expect("failed to assemble");

    let expected_memory: [u16; 100] = [
        605, 0, 1, 0, 100, 501, 102, 902, 303, 502, 301, 503, 302, 204, 816, 605, 0, 0, 0, 0,
        0, 0, 0, 0, 0, 0, 0, 0, 0, 0, 0, 0, 0, 0, 0, 0, 0, 0, 0, 0, 0, 0, 0, 0, 0, 0, 0, 0, 0,
        0, 0, 0, 0, 0, 0, 0, 0, 0, 0, 0, 0, 0, 0, 0, 0, 0, 0, 0, 0, 0, 0, 0, 0, 0, 0, 0, 0, 0,
        0, 0, 0, 0, 0, 0, 0, 0, 0, 0, 0, 0, 0, 0, 0, 0, 0, 0, 0, 0, 0, 0,
    ];

    assert!(
        memory
            .iter()
            .zip(expected_memory)
            .all(|(number, expected)| u16::from(*number) == expected),
        "Could not assemble Fibonacci (numbers)!"
    );
}

#[test]
fn too_many_numbers() {
    let numbers = "1\n".repeat(101);
    assert_eq!(
        NumberAssembler::assemble_from_text(&numbers),
        Err(ErrorWithLocation(
            LineNumber(101),
            FromNumbersError::TooManyNumbers
        ))
    );
    // Blank lines and comments do not count
    let numbers = format!("{}\n  \n# the end\n", "1\n".repeat(100));
    assert!(NumberAssembler::assemble_from_text(&numbers).is_ok());
}

#[test]
fn number_too_large() {
    assert_eq!(
        NumberAssembler::assemble_from_text("999\n1000\n"),
        Err(ErrorWithLocation(
            LineNumber(2),
            FromNumbersError::TooLarge(TryFromError::TooLarge)
        ))
    );
    assert_eq!(
        NumberAssembler::assemble_from_text("65535"),
        Err(ErrorWithLocation(
            LineNumber(1),
            FromNumbersError::TooLarge(TryFromError::TooLarge)
        ))
    );
    assert_eq!(
        NumberAssembler::assemble_from_text("65536"),
        Err(ErrorWithLocation(
            LineNumber(1),
            FromNumbersError::InvalidNumber(ParseIntError::PosOverflow)
        ))
    );
}

#[test]
fn malformed_numbers() {
    assert_eq!(
        NumberAssembler::assemble_from_text("1\n\nabc\n"),
        Err(ErrorWithLocation(
            LineNumber(3),
            FromNumbersError::InvalidNumber(ParseIntError::InvalidDigit)
        ))
    );
    assert_eq!(
        NumberAssembler::assemble_from_text("1 2\n"),
        Err(ErrorWithLocation(
            LineNumber(1),
            FromNumbersError::InvalidNumber(ParseIntError::InvalidDigit)
        ))
    );
    assert_eq!(
        NumberAssembler::assemble_from_text("-1\n"),
        Err(ErrorWithLocation(
            LineNumber(1),
            FromNumbersError::InvalidNumber(ParseIntError::InvalidDigit)
        ))
    );
    assert_eq!(
        NumberAssembler::assemble_from_text("+\n"),
        Err(ErrorWithLocation(
            LineNumber(1),
            FromNumbersError::InvalidNumber(ParseIntError::InvalidDigit)
        ))
    );
}

#[test]
fn numbers_with_space_comments_and_signs() {
    assert_eq!(
        assembled("  12  \n\t+7 # seven\n007;seven again\n\n# nothing\n   ; nothing\n999"),
        padded(&[12, 7, 7, 999])
    );
    assert_eq!(assembled("5\r\n6\r\n"), padded(&[5, 6]));
}

#[test]
fn assemble_line_by_line() {
    let mut assembler = NumberAssembler::new();
    assert_eq!(assembler.assemble_line("123"), Ok(()));
    assert_eq!(assembler.assemble_line("# comment"), Ok(()));
    assert_eq!(
        assembler.assemble_line("1234"),
        Err(FromNumbersError::TooLarge(TryFromError::TooLarge))
    );
    assert_eq!(
        assembler.assemble_line("x"),
        Err(FromNumbersError::InvalidNumber(ParseIntError::InvalidDigit))
    );
    for _ in 0..99 {
        assert_eq!(assembler.assemble_line("1"), Ok(()));
    }
    assert_eq!(assembler.assemble_line(""), Ok(()));
    assert_eq!(
        assembler.assemble_line("1"),
        Err(FromNumbersError::TooManyNumbers)
    );
}

#[test]
fn number_error_conversions() {
    assert_eq!(
        FromNumbersError::from(ParseIntError::Empty),
        FromNumbersError::InvalidNumber(ParseIntError::Empty)
    );
    assert_eq!(
        FromNumbersError::from(TryFromError::TooLarge),
        FromNumbersError::TooLarge(TryFromError::TooLarge)
    );
}
