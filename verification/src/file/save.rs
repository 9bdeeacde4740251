use super::{
    byte_at, head_bits, lemma_load_saved, loaded, packed, packed_byte_of, tail_bits, word_at,
    BitCursor, Error, MAX_FILE_SIZE,
};
use crate::computer::{memory_values, Memory};
use vstd::prelude::*;
use vstd::slice::slice_subrange;

verus! {

/// The bytes of a buffer after others were stored over them: a bit is set
/// where it was set before or is set in what was stored.
pub open spec fn overlaid(before: Seq<u8>, bytes: Seq<u8>) -> Seq<u8> {
    Seq::new(before.len(), |index: int| before[index] | byte_at(bytes, index))
}

/// The number of bytes up to the last one that is not zero
pub open spec fn trimmed_len(bytes: Seq<u8>) -> int
    decreases bytes.len(),
{
    if bytes.len() == 0 {
        0
    } else if bytes.last() != 0 {
        bytes.len() as int
    } else {
        trimmed_len(bytes.drop_last())
    }
}

/// The bytes without the zeros at their end
pub open spec fn trimmed(bytes: Seq<u8>) -> Seq<u8> {
    bytes.take(trimmed_len(bytes))
}

/// Storing the two parts of a word over a byte one after the other stores them both
proof fn lemma_store_parts(before: u8, tail: u8, head: u8)
    ensures
        (before | (tail | 0u8)) | head == before | (tail | head),
        (before | (0u8 | 0u8)) | tail == before | (tail | 0u8),
{
    assert((before | (tail | 0u8)) | head == before | (tail | head)) by (bit_vector);
    assert((before | (0u8 | 0u8)) | tail == before | (tail | 0u8)) by (bit_vector);
}

/// Save the [`Memory`] to the buffer and return a trimmed version of it
///
/// The words are stored over what the buffer holds, so it should hold zeros:
/// then what is returned loads as the same memory.
pub fn save_to_buffer(buffer: &mut [u8; MAX_FILE_SIZE], memory: Memory) -> (saved: &[u8])
    ensures
        final(buffer)@ == overlaid(old(buffer)@, packed(memory_values(memory))),
        saved@ == trimmed(final(buffer)@),
        old(buffer)@ == Seq::new(125, |index: int| 0u8) ==> loaded(saved@) == Ok::<
            Seq<int>,
            Error,
        >(memory_values(memory)),
{
    let ghost words = memory_values(memory);
    let ghost before = buffer@;
    let mut cursor = BitCursor::start();
    let mut address: usize = 0;
    proof {
        assert forall|i: int| 0 <= i < 125 implies #[trigger] buffer@[i] == before[i]
            | packed_byte_of(words, 0, i) by {
            let byte = before[i];
            assert(byte | (0u8 | 0u8) == byte) by (bit_vector);
        }
    }
    while address < 100
        invariant
            address <= 100,
            cursor.at(address as int),
            words == memory_values(memory),
            forall|a: int| 0 <= a < address ==> 0 <= #[trigger] words[a] < 1000,
            before.len() == 125,
            forall|i: int|
                0 <= i < 125 ==> #[trigger] buffer@[i] == before[i] | packed_byte_of(
                    words,
                    address as int,
                    i,
                ),
        decreases 100 - address,
    {
        let ghost stored = buffer@;
        let number = u16::from(memory[address]);
        // Get the parts in the first and second byte
        let lower = #[verifier::truncate] ((number >> cursor.offset) as u8);
        let upper = #[verifier::truncate] ((number << (8 - cursor.offset)) as u8);
        // Put the parts into the buffer
        buffer[cursor.index] = buffer[cursor.index] | lower;
        buffer[cursor.index + 1] = buffer[cursor.index + 1] | upper;
        proof {
            let a = address as int;
            let first = cursor.index as int;
            cursor.lemma_advanced(a);
            assert(4 * (first / 5) + first % 5 == a);
            assert(4 * ((first + 1) / 5) + (first + 1) % 5 == a + 1);
            assert(number == word_at(words, a));
            assert(lower == head_bits(number, a));
            assert(upper == tail_bits(number, a));
            assert forall|i: int| 0 <= i < 125 implies #[trigger] buffer@[i] == before[i]
                | packed_byte_of(words, a + 1, i) by {
                let word = 4 * (i / 5) + i % 5;
                if i == first {
                    let tail = if i % 5 > 0 {
                        tail_bits(word_at(words, a - 1), a - 1)
                    } else {
                        0u8
                    };
                    lemma_store_parts(before[i], tail, lower);
                } else if i == first + 1 {
                    lemma_store_parts(before[i], upper, 0);
                } else {
                    assert(i % 5 < 4 ==> word != a);
                    assert(i % 5 > 0 ==> word - 1 != a);
                    assert(buffer@[i] == stored[i]);
                }
            }
        }
        cursor = cursor.next();
        address += 1;
    }
    assert(buffer@ =~= overlaid(before, packed(words)));
    assert(words.len() == 100);

    // Leave out the zeros after the last byte that is not zero
    let mut len: usize = MAX_FILE_SIZE;
    assert(buffer@.take(125) =~= buffer@);
    while len > 0 && buffer[len - 1] == 0
        invariant
            len <= 125,
            trimmed_len(buffer@) == trimmed_len(buffer@.take(len as int)),
            words.len() == 100,
            forall|a: int| 0 <= a < 100 ==> 0 <= #[trigger] words[a] < 1000,
            buffer@ == overlaid(before, packed(words)),
            before == old(buffer)@,
        decreases len,
    {
        assert(buffer@.take(len as int).drop_last() =~= buffer@.take(len - 1));
        len -= 1;
    }
    assert(trimmed_len(buffer@) == len);
    proof {
        lemma_load_saved(words);
    }
    slice_subrange(buffer.as_slice(), 0, len)
}

} // verus!
