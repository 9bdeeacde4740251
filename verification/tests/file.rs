use lminc::computer::Memory;
use lminc::file::{load_from_buffer, save_to_buffer, BitCursor, Error, MAX_FILE_SIZE};
use lminc::num3::ThreeDigitNumber;

fn number(value: u16) -> ThreeDigitNumber {
    ThreeDigitNumber::try_from(value).expect("value is below 1000")
}

fn memory_of(program: &[u16]) -> Memory {
    let mut memory = [ThreeDigitNumber::zero(); 100];
    for (word, value) in memory.iter_mut().zip(program) {
        *word = number(*value);
    }
    memory
}

fn saved(memory: Memory) -> Vec<u8> {
    let mut buffer = [0; MAX_FILE_SIZE];
    save_to_buffer(&mut buffer, memory).to_vec()
}

#[test]
fn load_empty_buffer() {
    let buffer = [];

    // Load the memory from the buffer
    let memory = load_from_buffer(&buffer[..]).expect("failed to load from buffer");

    assert!(
        memory.iter().all(|number| u16::from(*number) == 0),
        "Empty buffer did not load all zeros!"
    );
}

#[test]
fn load_full_buffer() {
    let mut buffer = [0; MAX_FILE_SIZE];
    // Set the MSB in each 10-bit sequence to 1
    buffer.iter_mut().enumerate().for_each(|(index, byte)| {
        let shift = (2 * index) % 10;
        if shift < 8 {
            *byte = 0b1000_0000_u8 >> shift;
        }
    });

    // Load the memory from the buffer
    let memory = load_from_buffer(&buffer[..]).expect("failed to load from buffer");

    assert!(
        memory.iter().all(|number| u16::from(*number) == 512),
        "Full buffer did not load all 512s!"
    );
}

#[test]
fn save_empty_buffer() {
    let memory = [ThreeDigitNumber::zero(); 100];
    let mut buffer = [0; MAX_FILE_SIZE];

    // Write the memory to the buffer
    let buffer_trimmed = save_to_buffer(&mut buffer, memory);

    assert_eq!(
        buffer_trimmed.len(),
        0,
        "Zeroed memory did not save an empty buffer!",
    );
}

#[test]
fn save_full_buffer() {
    let memory = [ThreeDigitNumber::from_unchecked(1); 100];
    let mut buffer = [0; MAX_FILE_SIZE];

    // Write the memory to the buffer
    let buffer_trimmed = save_to_buffer(&mut buffer, memory);
    assert_eq!(
        buffer_trimmed.len(),
        MAX_FILE_SIZE,
        "Full memory did not fill up buffer!"
    );

    assert!(
        buffer_trimmed.iter().enumerate().all(|(index, byte)| {
            *byte == {
                let shift = 8 - 2 * (index % 5);
                if shift < 8 {
                    1 << shift
                } else {
                    0
                }
            }
        }),
        "Full memory did not save all 1s!"
    );
}

#[test]
fn load_bytes_with_256s() {
    let mut buffer = [0; MAX_FILE_SIZE];
    buffer.iter_mut().enumerate().for_each(|(index, byte)| {
        let shift = 8 - 2 * ((index + 1) % 5);
        if shift < 8 {
            *byte = 1 << shift;
        }
    });
    let memory = load_from_buffer(&buffer[..]).expect("failed to load from buffer");
    assert!(memory.iter().all(|number| u16::from(*number) == 256));
}

#[test]
fn every_phase_of_the_packing() {
    // One word in each of the four places of a group of five bytes
    // 999 = 0b11_1110_0111
    assert_eq!(saved(memory_of(&[999])), vec![0xf9, 0xc0]);
    assert_eq!(saved(memory_of(&[0, 999])), vec![0, 0x3e, 0x70]);
    assert_eq!(saved(memory_of(&[0, 0, 999])), vec![0, 0, 0x0f, 0x9c]);
    assert_eq!(saved(memory_of(&[0, 0, 0, 999])), vec![0, 0, 0, 0x03, 0xe7]);
    assert_eq!(
        saved(memory_of(&[0, 0, 0, 0, 999])),
        vec![0, 0, 0, 0, 0, 0xf9, 0xc0]
    );
    assert_eq!(saved(memory_of(&[1])), vec![0, 0x40]);
    assert_eq!(saved(memory_of(&[512])), vec![0x80]);
    assert_eq!(saved(memory_of(&[999, 999])), vec![0xf9, 0xfe, 0x70]);
    // 902 = 0b11_1000_0110 and 1 = 0b00_0000_0001
    assert_eq!(saved(memory_of(&[902, 1])), vec![0xe1, 0x80, 0x10]);
}

#[test]
fn round_trips() {
    let fibonacci = memory_of(&[
        605, 0, 1, 0, 100, 501, 102, 902, 303, 502, 301, 503, 302, 204, 816, 605,
    ]);
    let mut counting = [ThreeDigitNumber::zero(); 100];
    let mut mixed = [ThreeDigitNumber::zero(); 100];
    for index in 0..100u16 {
        counting[usize::from(index)] = number(999 - index);
        mixed[usize::from(index)] = number((index * 617 + 5) % 1000);
    }
    for memory in [
        fibonacci,
        counting,
        mixed,
        [number(0); 100],
        [number(1); 100],
        [number(902); 100],
        [number(999); 100],
        memory_of(&[0, 0, 0, 0, 0, 0, 0, 1]),
    ] {
        assert_eq!(load_from_buffer(&saved(memory)), Ok(memory));
    }
}

#[test]
fn saved_length_ends_at_the_last_byte_that_is_not_zero() {
    assert_eq!(saved(memory_of(&[605])).len(), 2);
    assert_eq!(saved(memory_of(&[512])).len(), 1);
    assert_eq!(saved(memory_of(&[0, 0, 0, 256])).len(), 4);
    let mut memory = memory_of(&[]);
    memory[99] = number(256);
    assert_eq!(saved(memory).len(), 124);
    memory[99] = number(1);
    assert_eq!(saved(memory).len(), 125);
}

#[test]
fn save_stores_over_what_the_buffer_holds() {
    let mut buffer = [0; MAX_FILE_SIZE];
    buffer[0] = 0x01;
    buffer[7] = 0x80;
    let trimmed = save_to_buffer(&mut buffer, memory_of(&[512])).to_vec();
    assert_eq!(trimmed, vec![0x81, 0, 0, 0, 0, 0, 0, 0x80]);
    assert_eq!(buffer[0], 0x81);
}

#[test]
fn buffer_too_large() {
    assert_eq!(
        load_from_buffer(&[0; MAX_FILE_SIZE + 1]),
        Err(Error::BufferTooLarge(126))
    );
    assert_eq!(
        load_from_buffer(&[0xff; 1000]),
        Err(Error::BufferTooLarge(1000))
    );
    assert!(load_from_buffer(&[0; MAX_FILE_SIZE]).is_ok());
}

#[test]
fn invalid_numbers() {
    assert_eq!(
        load_from_buffer(&[0xff, 0xc0]),
        Err(Error::InvalidNumber(0, 1023))
    );
    // 1000 is the least number that is too large
    assert_eq!(
        load_from_buffer(&[0xfa, 0x00]),
        Err(Error::InvalidNumber(0, 1000))
    );
    assert_eq!(load_from_buffer(&[0xf9, 0xc0]).map(|memory| u16::from(memory[0])), Ok(999));
    // The first number that is too large is reported
    assert_eq!(
        load_from_buffer(&[0, 0x3f, 0xff, 0xff]),
        Err(Error::InvalidNumber(1, 1023))
    );
    // A number that the end of the buffer cuts short counts as well
    assert_eq!(
        load_from_buffer(&[0xff]),
        Err(Error::InvalidNumber(0, 1020))
    );
    let mut buffer = [0; MAX_FILE_SIZE];
    buffer[123] = 0x03;
    buffer[124] = 0xff;
    assert_eq!(
        load_from_buffer(&buffer),
        Err(Error::InvalidNumber(99, 1023))
    );
}

#[test]
fn cursor_goes_through_every_offset() {
    let mut cursor = BitCursor::start();
    let mut places = Vec::new();
    for _ in 0..9 {
        places.push((cursor.index, cursor.offset));
        cursor = cursor.next();
    }
    assert_eq!(
        places,
        vec![
            (0, 2),
            (1, 4),
            (2, 6),
            (3, 8),
            (5, 2),
            (6, 4),
            (7, 6),
            (8, 8),
            (10, 2)
        ]
    );
    // The last word ends with the last byte
    let mut cursor = BitCursor::start();
    for _ in 0..99 {
        cursor = cursor.next();
    }
    assert_eq!((cursor.index, cursor.offset), (123, 8));
}
