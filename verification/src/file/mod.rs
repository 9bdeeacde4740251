use vstd::prelude::*;

mod load;
mod save;

pub use load::{load_from_buffer, loaded, Error};
pub use save::{overlaid, save_to_buffer, trimmed, trimmed_len};

verus! {

// 10 bits needed per number
// (10 * 100 / 8 = 125 bytes)
/// The maximum size of saved memory in bytes
pub const MAX_FILE_SIZE: usize = 125;

/// The word at an address, as the sixteen bits that hold it. Past the last word it is zero
pub open spec fn word_at(words: Seq<int>, address: int) -> u16 {
    if 0 <= address < words.len() {
        words[address] as u16
    } else {
        0
    }
}

/// The byte at an index. A byte that the buffer does not hold is zero
pub open spec fn byte_at(bytes: Seq<u8>, index: int) -> u8 {
    if 0 <= index < bytes.len() {
        bytes[index]
    } else {
        0
    }
}

/// The index of the byte in which the word at an address starts. Four words
/// fill five bytes, so a word shares its first byte with the word before it
/// unless its address is a multiple of 4.
pub open spec fn first_byte(address: int) -> int {
    5 * (address / 4) + address % 4
}

/// The number of low bits of a word that do not fit in its first byte: 2, 4, 6 or 8
pub open spec fn spill(address: int) -> u16 {
    (2 * (address % 4) + 2) as u16
}

/// Where a word stands in the saved form: the index of the byte in which it
/// starts, and the number of its low bits that spill over into the next byte
#[derive(Clone, Copy, Debug, PartialEq, Eq)]
pub struct BitCursor {
    pub index: usize,
    pub offset: u16,
}

impl BitCursor {
    /// The cursor stands at the word with the given address
    pub open spec fn at(self, address: int) -> bool {
        self.index == first_byte(address) && self.offset == spill(address)
    }

    /// The cursor one word on: two more bits spill over, and after eight
    /// have, the next word starts in a byte of its own
    pub open spec fn advanced(self) -> BitCursor {
        if self.offset == 8 {
            BitCursor { index: (self.index + 2) as usize, offset: 2 }
        } else {
            BitCursor { index: (self.index + 1) as usize, offset: (self.offset + 2) as u16 }
        }
    }

    /// Moving the cursor on from a word brings it to the next word
    pub proof fn lemma_advanced(self, address: int)
        requires
            0 <= address,
            self.at(address),
            self.index + 2 <= usize::MAX,
        ensures
            self.advanced().at(address + 1),
    {
    }

    /// The cursor at the first word
    pub fn start() -> (cursor: Self)
        ensures
            cursor.at(0),
    {
        BitCursor { index: 0, offset: 2 }
    }

    /// The cursor at the next word
    pub fn next(self) -> (cursor: Self)
        requires
            self.index + 2 <= usize::MAX,
            self.offset <= 8,
        ensures
            cursor == self.advanced(),
    {
        if self.offset == 8 {
            BitCursor { index: self.index + 2, offset: 2 }
        } else {
            BitCursor { index: self.index + 1, offset: self.offset + 2 }
        }
    }
}

/// The high bits of a word, as they stand at the low end of its first byte
pub open spec fn head_bits(word: u16, address: int) -> u8 {
    (word >> spill(address)) as u8
}

/// The low bits of a word, as they stand at the high end of its second byte
pub open spec fn tail_bits(word: u16, address: int) -> u8 {
    (word << ((8 - spill(address)) as u16)) as u8
}

/// The byte at an index of the saved form of the first `count` words: the low
/// bits of the word that started in the byte before, then the high bits of
/// the word that starts in this byte.
pub open spec fn packed_byte_of(words: Seq<int>, count: int, index: int) -> u8 {
    let address = 4 * (index / 5) + index % 5;
    let tail = if index % 5 > 0 && address - 1 < count {
        tail_bits(word_at(words, address - 1), address - 1)
    } else {
        0
    };
    let head = if index % 5 < 4 && address < count {
        head_bits(word_at(words, address), address)
    } else {
        0
    };
    tail | head
}

/// The saved form of a memory before trailing zeros are cut off: 125 bytes
/// that hold the 100 words as ten bits each, one after the other, high bits first.
pub open spec fn packed(words: Seq<int>) -> Seq<u8> {
    Seq::new(125, |index: int| packed_byte_of(words, 100, index))
}

/// The ten bits that a saved form holds for an address
pub open spec fn unpacked_word(bytes: Seq<u8>, address: int) -> u16 {
    let first = first_byte(address);
    (((byte_at(bytes, first) as u16) << spill(address)) & 0x3ff) | ((byte_at(bytes, first + 1) as u16)
        >> ((8 - spill(address)) as u16))
}

/// The first address from `from` on whose ten bits are no three digit number, or 100
pub open spec fn first_invalid(bytes: Seq<u8>, from: int) -> int
    decreases 100 - from,
{
    if from >= 100 {
        100
    } else if unpacked_word(bytes, from) > 999 {
        from
    } else {
        first_invalid(bytes, from + 1)
    }
}

/// The saved form of a memory in a buffer that held zeros before
pub open spec fn saved(words: Seq<int>) -> Seq<u8> {
    trimmed(overlaid(Seq::new(125, |index: int| 0u8), packed(words)))
}

/// A byte that holds the high bits of a word gives them back, whatever low
/// bits of the word before stand above them; and likewise the byte after it.
proof fn lemma_word_from_bytes(above: u8, word: u16, below: u8, shift: u16)
    requires
        word < 1024,
        shift == 2 || shift == 4 || shift == 6 || shift == 8,
        ((above as u16) << shift) & 0x3ff == 0,
        (below as u16) >> ((8 - shift) as u16) == 0,
    ensures
        ((((above | ((word >> shift) as u8)) as u16) << shift) & 0x3ff) | (((((word << ((8
            - shift) as u16)) as u8) | below) as u16) >> ((8 - shift) as u16)) == word,
{
    assert(word < 1024 && (shift == 2 || shift == 4 || shift == 6 || shift == 8) && ((above as u16)
        << shift) & 0x3ff == 0 && (below as u16) >> ((8 - shift) as u16) == 0 ==> ((((above | ((word
        >> shift) as u8)) as u16) << shift) & 0x3ff) | (((((word << ((8 - shift) as u16)) as u8)
        | below) as u16) >> ((8 - shift) as u16)) == word) by (bit_vector);
}

/// The low bits of the word before stand above the ten bits of a word, and
/// the high bits of the word after stand below them.
proof fn lemma_neighbours_apart(before: u16, after: u16, shift: u16)
    requires
        before < 1024,
        after < 1024,
        shift == 2 || shift == 4 || shift == 6 || shift == 8,
    ensures
        ((((before << ((10 - shift) as u16)) as u8) as u16) << shift) & 0x3ff == 0,
        (((after >> ((shift + 2) as u16)) as u8) as u16) >> ((8 - shift) as u16) == 0,
        ((0u8 as u16) << shift) & 0x3ff == 0,
        (0u8 as u16) >> ((8 - shift) as u16) == 0,
{
    assert(before < 1024 && (shift == 2 || shift == 4 || shift == 6 || shift == 8) ==> ((((before
        << ((10 - shift) as u16)) as u8) as u16) << shift) & 0x3ff == 0) by (bit_vector);
    assert(after < 1024 && (shift == 2 || shift == 4 || shift == 6 || shift == 8) ==> (((after >> ((
    shift + 2) as u16)) as u8) as u16) >> ((8 - shift) as u16) == 0) by (bit_vector);
    assert((shift == 2 || shift == 4 || shift == 6 || shift == 8) ==> ((0u8 as u16) << shift)
        & 0x3ff == 0 && (0u8 as u16) >> ((8 - shift) as u16) == 0) by (bit_vector);
}

/// What the trimming cuts off is zeros
pub proof fn lemma_trimmed_zeros(bytes: Seq<u8>, index: int)
    requires
        trimmed_len(bytes) <= index < bytes.len(),
    ensures
        bytes[index] == 0,
    decreases bytes.len(),
{
    lemma_trimmed_len(bytes);
    if bytes.len() > 0 && bytes.last() == 0 && index < bytes.len() - 1 {
        lemma_trimmed_zeros(bytes.drop_last(), index);
    }
}

/// The trimmed form is no longer than the whole
pub proof fn lemma_trimmed_len(bytes: Seq<u8>)
    ensures
        0 <= trimmed_len(bytes) <= bytes.len(),
    decreases bytes.len(),
{
    if bytes.len() > 0 && bytes.last() == 0 {
        lemma_trimmed_len(bytes.drop_last());
    }
}

/// The saved form of 100 three digit numbers holds each of them at its address
pub proof fn lemma_saved_word(words: Seq<int>, address: int)
    requires
        words.len() == 100,
        forall|a: int| 0 <= a < 100 ==> 0 <= #[trigger] words[a] < 1000,
        0 <= address < 100,
    ensures
        unpacked_word(saved(words), address) == words[address],
{
    let zeros = Seq::new(125, |index: int| 0u8);
    let whole = overlaid(zeros, packed(words));
    let first = first_byte(address);
    let shift = spill(address);
    let word = word_at(words, address);
    assert forall|index: int| 0 <= index < 125 implies #[trigger] whole[index] == packed(
        words,
    )[index] by {
        let byte = packed(words)[index];
        assert(0u8 | byte == byte) by (bit_vector);
    }
    lemma_trimmed_len(whole);
    assert forall|index: int| 0 <= index < 125 implies byte_at(saved(words), index)
        == #[trigger] whole[index] by {
        if index >= trimmed_len(whole) {
            lemma_trimmed_zeros(whole, index);
        }
    }
    let above = if address % 4 > 0 {
        tail_bits(word_at(words, address - 1), address - 1)
    } else {
        0u8
    };
    let below = if address % 4 < 3 && address + 1 < 100 {
        head_bits(word_at(words, address + 1), address + 1)
    } else {
        0u8
    };
    assert(4 * (first / 5) + first % 5 == address);
    assert(4 * ((first + 1) / 5) + (first + 1) % 5 == address + 1);
    assert(whole[first] == above | head_bits(word, address));
    assert(whole[first + 1] == tail_bits(word, address) | below);
    let before = if address % 4 > 0 {
        word_at(words, address - 1)
    } else {
        0u16
    };
    let after = if address % 4 < 3 && address + 1 < 100 {
        word_at(words, address + 1)
    } else {
        0u16
    };
    lemma_neighbours_apart(before, after, shift);
    if address % 4 > 0 {
        assert(((8 - spill(address - 1)) as u16) == ((10 - shift) as u16));
    }
    if address % 4 < 3 && address + 1 < 100 {
        assert(spill(address + 1) == ((shift + 2) as u16));
    }
    lemma_word_from_bytes(above, word, below, shift);
}

/// Loading what was saved gives the memory back, word for word
pub proof fn lemma_load_saved(words: Seq<int>)
    requires
        words.len() == 100,
        forall|a: int| 0 <= a < 100 ==> 0 <= #[trigger] words[a] < 1000,
    ensures
        loaded(saved(words)) == Ok::<Seq<int>, Error>(words),
{
    let bytes = saved(words);
    let whole = overlaid(Seq::new(125, |index: int| 0u8), packed(words));
    lemma_trimmed_len(whole);
    assert(bytes.len() <= 125);
    assert forall|a: int| 0 <= a < 100 implies #[trigger] unpacked_word(bytes, a) == words[a] by {
        lemma_saved_word(words, a);
    }
    lemma_first_invalid(bytes, 0);
    assert(first_invalid(bytes, 0) == 100);
    assert(Seq::new(100, |a: int| unpacked_word(bytes, a) as int) =~= words);
}

/// No address before the first invalid one is invalid, and that one is, if it is an address
pub proof fn lemma_first_invalid(bytes: Seq<u8>, from: int)
    requires
        0 <= from <= 100,
    ensures
        from <= first_invalid(bytes, from) <= 100,
        forall|a: int| from <= a < first_invalid(bytes, from) ==> unpacked_word(bytes, a) <= 999,
        first_invalid(bytes, from) < 100 ==> unpacked_word(bytes, first_invalid(bytes, from)) > 999,
    decreases 100 - from,
{
    if from < 100 && unpacked_word(bytes, from) <= 999 {
        lemma_first_invalid(bytes, from + 1);
    }
}

/// A memory of zeros is saved as no bytes at all
pub proof fn lemma_saved_zeros(words: Seq<int>)
    requires
        words.len() == 100,
        forall|a: int| 0 <= a < 100 ==> #[trigger] words[a] == 0,
    ensures
        saved(words).len() == 0,
{
    let whole = overlaid(Seq::new(125, |index: int| 0u8), packed(words));
    assert forall|index: int| 0 <= index < 125 implies #[trigger] whole[index] == 0 by {
        assert(forall|shift: u16| 0u8 | (((0u16 << shift) as u8) | 0u8) == 0) by (bit_vector);
        assert(forall|shift: u16| 0u8 | (0u8 | ((0u16 >> shift) as u8)) == 0) by (bit_vector);
        assert(forall|shift: u16, other: u16|
            0u8 | (((0u16 << shift) as u8) | ((0u16 >> other) as u8)) == 0) by (bit_vector);
        assert(0u8 | (0u8 | 0u8) == 0) by (bit_vector);
    }
    lemma_all_zeros_trimmed(whole);
}

/// Bytes that are all zero are trimmed to nothing
pub proof fn lemma_all_zeros_trimmed(bytes: Seq<u8>)
    requires
        forall|index: int| 0 <= index < bytes.len() ==> #[trigger] bytes[index] == 0,
    ensures
        trimmed_len(bytes) == 0,
    decreases bytes.len(),
{
    if bytes.len() > 0 {
        lemma_all_zeros_trimmed(bytes.drop_last());
    }
}

} // verus!
