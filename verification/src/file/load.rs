use super::{byte_at, first_invalid, unpacked_word, BitCursor, MAX_FILE_SIZE};
use crate::computer::{memory_values, Memory};
use crate::num3::ThreeDigitNumber;
use vstd::prelude::*;

verus! {

/// Loading Errors
#[derive(Clone, Copy, Debug, PartialEq, Eq, Structural)]
pub enum Error {
    /// The buffer is more than [`MAX_FILE_SIZE`] bytes long
    BufferTooLarge(usize),
    /// A number in the decoded buffer is too large (> 999)
    InvalidNumber(usize, u16),
}

/// The memory that a saved form holds, or why it holds none
pub open spec fn loaded(bytes: Seq<u8>) -> Result<Seq<int>, Error> {
    let invalid = first_invalid(bytes, 0);
    if bytes.len() > MAX_FILE_SIZE {
        Err(Error::BufferTooLarge(bytes.len() as usize))
    } else if invalid < 100 {
        Err(Error::InvalidNumber(invalid as usize, unpacked_word(bytes, invalid)))
    } else {
        Ok(Seq::new(100, |address: int| unpacked_word(bytes, address) as int))
    }
}

/// The byte at an index of the buffer, or zero past its end
fn byte_or_zero(buffer: &[u8], index: usize) -> (byte: u8)
    ensures
        byte == byte_at(buffer@, index as int),
{
    if index < buffer.len() {
        buffer[index]
    } else {
        0
    }
}

/// Load [`Memory`] from a saved buffer
///
/// # Errors
/// See [`Error`]
pub fn load_from_buffer(buffer: &[u8]) -> (memory: Result<Memory, Error>)
    ensures
        match memory {
            Ok(memory) => loaded(buffer@) == Ok::<Seq<int>, Error>(memory_values(memory)),
            Err(error) => loaded(buffer@) == Err::<Seq<int>, Error>(error),
        },
{
    if buffer.len() > MAX_FILE_SIZE {
        return Err(Error::BufferTooLarge(buffer.len()));
    }
    let mut memory = [ThreeDigitNumber::zero();100];
    let mut cursor = BitCursor::start();
    let mut address: usize = 0;
    while address < 100
        invariant
            address <= 100,
            buffer@.len() <= MAX_FILE_SIZE,
            cursor.at(address as int),
            first_invalid(buffer@, 0) == first_invalid(buffer@, address as int),
            forall|a: int|
                0 <= a < address ==> (#[trigger] memory[a])@ == unpacked_word(buffer@, a),
        decreases 100 - address,
    {
        // Get the bytes that hold the high and the low bits of the number
        let high = byte_or_zero(buffer, cursor.index) as u16;
        let low = byte_or_zero(buffer, cursor.index + 1) as u16;
        let number = ((high << cursor.offset) & 0x3ff) | (low >> (8 - cursor.offset));
        proof {
            cursor.lemma_advanced(address as int);
        }
        assert(number == unpacked_word(buffer@, address as int));
        if number > 999 {
            return Err(Error::InvalidNumber(address, number));
        }
        memory[address] = ThreeDigitNumber::from_unchecked(number);
        cursor = cursor.next();
        address += 1;
    }
    assert(memory_values(memory) =~= Seq::new(
        100,
        |address: int| unpacked_word(buffer@, address) as int,
    ));
    Ok(memory)
}

} // verus!
