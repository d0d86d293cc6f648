//! The frame of a compiled catalog file: its header and its two tables.
//!
//! A file starts with a magic number that also tells the byte order, the
//! number of strings, and the places of two tables: one for the message
//! keys, one for their translations. Each table entry gives the length and
//! the place of a string, which is followed by a NUL byte.

use vstd::prelude::*;

verus! {

/// Whether the file starts with the magic number in little-endian order.
pub open spec fn is_little_endian(bytes: Seq<u8>) -> bool {
    &&& bytes.len() >= 4
    &&& bytes[0] == 0xde
    &&& bytes[1] == 0x12
    &&& bytes[2] == 0x04
    &&& bytes[3] == 0x95
}

/// Whether the file starts with the magic number in big-endian order.
pub open spec fn is_big_endian(bytes: Seq<u8>) -> bool {
    &&& bytes.len() >= 4
    &&& bytes[0] == 0x95
    &&& bytes[1] == 0x04
    &&& bytes[2] == 0x12
    &&& bytes[3] == 0xde
}

/// The 32-bit number that the four bytes at `at` hold, in the file's byte
/// order.
pub open spec fn number_at(bytes: Seq<u8>, at: int) -> int {
    if is_little_endian(bytes) {
        bytes[at] as int + 0x100 * (bytes[at + 1] as int) + 0x1_0000 * (bytes[at + 2] as int)
            + 0x100_0000 * (bytes[at + 3] as int)
    } else {
        0x100_0000 * (bytes[at] as int) + 0x1_0000 * (bytes[at + 1] as int) + 0x100 * (bytes[at
            + 2] as int) + bytes[at + 3] as int
    }
}

/// The number of strings that the header announces.
pub open spec fn string_count(bytes: Seq<u8>) -> int {
    number_at(bytes, 8)
}

/// The place of the table of message keys.
pub open spec fn keys_table(bytes: Seq<u8>) -> int {
    number_at(bytes, 12)
}

/// The place of the table of translations.
pub open spec fn translations_table(bytes: Seq<u8>) -> int {
    number_at(bytes, 16)
}

/// Whether the entry `index` of the table at `table` lies within the file,
/// and with it the string that the entry points to and the NUL behind it.
pub open spec fn entry_fits(bytes: Seq<u8>, table: int, index: int) -> bool {
    let at = table + 8 * index;
    &&& at + 8 <= bytes.len()
    &&& number_at(bytes, at + 4) + number_at(bytes, at) + 1 <= bytes.len()
}

/// Whether string `index` fits with its key and with its translation.
pub open spec fn string_fits(bytes: Seq<u8>, index: int) -> bool {
    &&& entry_fits(bytes, keys_table(bytes), index)
    &&& entry_fits(bytes, translations_table(bytes), index)
}

/// Whether the file's frame is sound: the header is whole and starts with
/// the magic number, both tables start within the file, and every string
/// that the header announces fits.
pub open spec fn well_framed(bytes: Seq<u8>) -> bool {
    &&& bytes.len() >= 28
    &&& (is_little_endian(bytes) || is_big_endian(bytes))
    &&& keys_table(bytes) <= bytes.len()
    &&& translations_table(bytes) <= bytes.len()
    &&& forall|index: int| 0 <= index < string_count(bytes) ==> string_fits(bytes, index)
}

/// Reads the 32-bit number at `at`, in the file's byte order.
fn read_number(bytes: &[u8], at: usize, little: bool) -> (value: u64)
    requires
        at + 4 <= bytes.len(),
        little == is_little_endian(bytes@),
    ensures
        value == number_at(bytes@, at as int),
        value <= 0xffff_ffff,
{
    let b0: u64 = bytes[at] as u64;
    let b1: u64 = bytes[at + 1] as u64;
    let b2: u64 = bytes[at + 2] as u64;
    let b3: u64 = bytes[at + 3] as u64;
    if little {
        b0 + 0x100 * b1 + 0x1_0000 * b2 + 0x100_0000 * b3
    } else {
        0x100_0000 * b0 + 0x1_0000 * b1 + 0x100 * b2 + b3
    }
}

/// Checks one table entry and its string against the file's length.
fn check_entry(bytes: &[u8], little: bool, table: u64, index: u64) -> (yes: bool)
    requires
        little == is_little_endian(bytes@),
        table <= 0xffff_ffff,
        index <= 0xffff_ffff,
    ensures
        yes == entry_fits(bytes@, table as int, index as int),
{
    let n: u64 = bytes.len() as u64;
    let at: u64 = table + 8 * index;
    if at + 8 > n {
        return false;
    }
    let start: usize = at as usize;
    let len = read_number(bytes, start, little);
    let off = read_number(bytes, start + 4, little);
    off + len + 1 <= n
}

/// Checks the frame of a catalog file: that the header is whole and starts
/// with the magic number, and that the tables and all the strings that
/// they point to lie within the file.
pub fn is_well_framed(bytes: &[u8]) -> (yes: bool)
    ensures
        yes == well_framed(bytes@),
{
    if bytes.len() < 28 {
        return false;
    }
    let little = bytes[0] == 0xde && bytes[1] == 0x12 && bytes[2] == 0x04 && bytes[3] == 0x95;
    let big = bytes[0] == 0x95 && bytes[1] == 0x04 && bytes[2] == 0x12 && bytes[3] == 0xde;
    if !little && !big {
        return false;
    }
    let n: u64 = bytes.len() as u64;
    let count = read_number(bytes, 8, little);
    let keys = read_number(bytes, 12, little);
    let translations = read_number(bytes, 16, little);
    if keys > n || translations > n {
        return false;
    }
    let mut index: u64 = 0;
    while index < count
        invariant
            index <= count <= 0xffff_ffff,
            little == is_little_endian(bytes@),
            count == string_count(bytes@),
            keys == keys_table(bytes@),
            translations == translations_table(bytes@),
            forall|earlier: int| 0 <= earlier < index ==> string_fits(bytes@, earlier),
        decreases count - index,
    {
        if !check_entry(bytes, little, keys, index) {
            assert(!string_fits(bytes@, index as int));
            return false;
        }
        if !check_entry(bytes, little, translations, index) {
            assert(!string_fits(bytes@, index as int));
            return false;
        }
        index += 1;
    }
    true
}

} // verus!
