//! Bit ranges of a 32-bit word: the model that every register accessor is stated over.
use vstd::prelude::*;

verus! {

/// The word whose low `width` bits are set and whose other bits are clear.
pub open spec fn low_mask(width: u32) -> u32 {
    if width >= 32 {
        0xFFFF_FFFFu32
    } else {
        !(0xFFFF_FFFFu32 << width)
    }
}

/// The `width` bits of `word` that start at bit `lsb`, moved down to bit 0.
pub open spec fn field(word: u32, lsb: u32, width: u32) -> u32 {
    (word >> lsb) & low_mask(width)
}

/// `word` with the `width` bits that start at bit `lsb` replaced by the low `width` bits of
/// `value`; every other bit keeps its place.
pub open spec fn with_field(word: u32, lsb: u32, width: u32, value: u32) -> u32 {
    (word & !(low_mask(width) << lsb)) | ((value & low_mask(width)) << lsb)
}

/// Whether bit `index` of `word` is set.
pub open spec fn flag(word: u32, index: u32) -> bool {
    field(word, index, 1) == 1
}

/// `word` with bit `index` set to `value`.
pub open spec fn with_flag(word: u32, index: u32, value: bool) -> u32 {
    with_field(word, index, 1, if value { 1u32 } else { 0u32 })
}

/// A field that was just written reads back as the low `width` bits of what was written.
pub proof fn lemma_field_of_with_field(word: u32, lsb: u32, width: u32, value: u32)
    by (bit_vector)
    requires
        1 <= width,
        lsb < 32,
        width <= 32 - lsb,
    ensures
        field(with_field(word, lsb, width, value), lsb, width) == value & low_mask(width),
{
}

/// Writing one field leaves every field that does not overlap it as it was.
pub proof fn lemma_with_field_keeps_others(
    word: u32,
    lsb: u32,
    width: u32,
    value: u32,
    other_lsb: u32,
    other_width: u32,
)
    by (bit_vector)
    requires
        1 <= width,
        lsb < 32,
        width <= 32 - lsb,
        1 <= other_width,
        other_lsb < 32,
        other_width <= 32 - other_lsb,
        other_lsb + other_width <= lsb || lsb + width <= other_lsb,
    ensures
        field(with_field(word, lsb, width, value), other_lsb, other_width) == field(
            word,
            other_lsb,
            other_width,
        ),
{
}

/// A field of `width` bits is a number below two to the `width`.
pub proof fn lemma_field_bound(word: u32, lsb: u32, width: u32)
    by (bit_vector)
    requires
        1 <= width < 32,
        lsb < 32,
    ensures
        field(word, lsb, width) < (1u32 << width),
        width == 1 ==> field(word, lsb, width) <= 1,
        width == 2 ==> field(word, lsb, width) <= 3,
        width == 3 ==> field(word, lsb, width) <= 7,
        width == 4 ==> field(word, lsb, width) <= 15,
        width == 5 ==> field(word, lsb, width) <= 31,
        width == 7 ==> field(word, lsb, width) <= 127,
        width <= 8 ==> field(word, lsb, width) <= 255,
        width == 11 ==> field(word, lsb, width) <= 2047,
        width == 18 ==> field(word, lsb, width) <= 0x3FFFF,
{
}

/// Reads the `width` bits of `word` that start at bit `lsb`.
pub fn get_field(word: u32, lsb: u32, width: u32) -> (value: u32)
    requires
        1 <= width,
        lsb < 32,
        width <= 32 - lsb,
    ensures
        value == field(word, lsb, width),
{
    let mask: u32 = if width >= 32 {
        0xFFFF_FFFFu32
    } else {
        !(0xFFFF_FFFFu32 << width)
    };
    (word >> lsb) & mask
}

/// Replaces the `width` bits of `word` that start at bit `lsb` by the low bits of `value`.
pub fn set_field(word: u32, lsb: u32, width: u32, value: u32) -> (updated: u32)
    requires
        1 <= width,
        lsb < 32,
        width <= 32 - lsb,
    ensures
        updated == with_field(word, lsb, width, value),
{
    let mask: u32 = if width >= 32 {
        0xFFFF_FFFFu32
    } else {
        !(0xFFFF_FFFFu32 << width)
    };
    (word & !(mask << lsb)) | ((value & mask) << lsb)
}

/// Reads bit `index` of `word`.
pub fn get_flag(word: u32, index: u32) -> (value: bool)
    requires
        index < 32,
    ensures
        value == flag(word, index),
{
    get_field(word, index, 1) == 1
}

/// Sets bit `index` of `word` to `value`.
pub fn set_flag(word: u32, index: u32, value: bool) -> (updated: u32)
    requires
        index < 32,
    ensures
        updated == with_flag(word, index, value),
{
    set_field(word, index, 1, if value { 1u32 } else { 0u32 })
}

/// A flag that was just written reads back as written.
pub proof fn lemma_flag_of_with_flag(word: u32, index: u32, value: bool)
    requires
        index < 32,
    ensures
        flag(with_flag(word, index, value), index) == value,
{
    let v: u32 = if value { 1u32 } else { 0u32 };
    lemma_field_of_with_field(word, index, 1, v);
    assert(1u32 & low_mask(1) == 1u32) by (bit_vector);
    assert(0u32 & low_mask(1) == 0u32) by (bit_vector);
}

/// The four bytes of a word, the least significant first: the order in which a register value
/// crosses the bus.
pub open spec fn le_bytes(word: u32) -> Seq<u8> {
    seq![
        (word & 0xFF) as u8,
        ((word >> 8) & 0xFF) as u8,
        ((word >> 16) & 0xFF) as u8,
        ((word >> 24) & 0xFF) as u8,
    ]
}

/// The word that four bytes stand for, the least significant first.
pub open spec fn le_word(bytes: Seq<u8>) -> u32
    recommends
        bytes.len() == 4,
{
    (bytes[0] as u32) | ((bytes[1] as u32) << 8) | ((bytes[2] as u32) << 16) | ((bytes[3] as u32)
        << 24)
}

/// Splitting a word into bytes and joining them again gives the word back.
pub proof fn lemma_le_word_of_le_bytes(word: u32)
    ensures
        le_word(le_bytes(word)) == word,
{
    assert((((word & 0xFF) as u8) as u32) | (((((word >> 8) & 0xFF) as u8) as u32) << 8) | (((((word
        >> 16) & 0xFF) as u8) as u32) << 16) | (((((word >> 24) & 0xFF) as u8) as u32) << 24)
        == word) by (bit_vector);
}

/// Joining four bytes into a word and splitting it again gives the bytes back.
pub proof fn lemma_le_bytes_of_le_word(bytes: Seq<u8>)
    requires
        bytes.len() == 4,
    ensures
        le_bytes(le_word(bytes)) == bytes,
{
    let (a, b, c, d) = (bytes[0], bytes[1], bytes[2], bytes[3]);
    let w = (a as u32) | ((b as u32) << 8) | ((c as u32) << 16) | ((d as u32) << 24);
    assert((w & 0xFF) as u8 == a && ((w >> 8) & 0xFF) as u8 == b && ((w >> 16) & 0xFF) as u8 == c
        && ((w >> 24) & 0xFF) as u8 == d) by (bit_vector)
        requires
            w == (a as u32) | ((b as u32) << 8) | ((c as u32) << 16) | ((d as u32) << 24),
    ;
    assert(le_bytes(le_word(bytes)) =~= bytes);
}

/// Splits a word into its four bytes, the least significant first.
pub fn to_le_bytes(word: u32) -> (bytes: [u8; 4])
    ensures
        bytes@ == le_bytes(word),
{
    assert(word & 0xFF <= 0xFF && (word >> 8) & 0xFF <= 0xFF && (word >> 16) & 0xFF <= 0xFF && (word
        >> 24) & 0xFF <= 0xFF) by (bit_vector);
    let bytes = [
        (word & 0xFF) as u8,
        ((word >> 8) & 0xFF) as u8,
        ((word >> 16) & 0xFF) as u8,
        ((word >> 24) & 0xFF) as u8,
    ];
    assert(bytes@ =~= le_bytes(word));
    bytes
}

/// Joins four bytes into a word, the least significant first.
pub fn from_le_bytes(bytes: &[u8; 4]) -> (word: u32)
    ensures
        word == le_word(bytes@),
{
    (bytes[0] as u32) | ((bytes[1] as u32) << 8) | ((bytes[2] as u32) << 16) | ((bytes[3] as u32)
        << 24)
}

} // verus!
