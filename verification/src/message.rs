//! Message objects as they lie in the chip's RAM: the bit-packed headers of transmitted and
//! received frames. The codecs work on byte buffers and never touch the bus.
use crate::bits::{
    field, flag, get_field, get_flag, le_bytes, le_word, lemma_field_bound,
    lemma_le_word_of_le_bytes, set_field, to_le_bytes, with_field,
};
use vstd::prelude::*;

verus! {

/// The bytes of a transmit header.
pub const TX_HEADER_SIZE: usize = 8;

/// The bytes of a receive header.
pub const RX_HEADER_SIZE: usize = 12;

/// The bytes of payload that a message holds at most.
pub const MAX_BUFFER_SIZE: usize = 48;

/// The bytes of a transmit header and a full payload together.
pub const TX_MESSAGE_SIZE: usize = 56;

/// The bits of an identifier that a standard frame carries.
pub const MESSAGE_IDENTIFIER_MASK: u16 = 0b0000_0111_1111_1111;

/// A standard frame identifier; only the low eleven bits count.
pub type MessageIdentifier = u16;

/// The 32-bit word number `index` of a header: four bytes, the least significant first. Bit
/// `n` of the header is bit `n % 32` of word `n / 32`.
pub open spec fn header_word(bytes: Seq<u8>, index: int) -> u32 {
    le_word(bytes.subrange(4 * index, 4 * index + 4))
}

/// The header with word number `index` replaced.
pub open spec fn with_header_word(bytes: Seq<u8>, index: int, word: u32) -> Seq<u8> {
    Seq::new(
        bytes.len(),
        |i: int|
            if 4 * index <= i < 4 * index + 4 {
                le_bytes(word)[i - 4 * index]
            } else {
                bytes[i]
            },
    )
}

/// The payload length in bytes that a data length code stands for: the codes up to 8 stand
/// for themselves, the codes above for 12, 16, 20, 24, 32, 48 and 64.
pub open spec fn payload_length(code: u8) -> u8 {
    if code <= 8 {
        code
    } else if code == 9 {
        12
    } else if code == 10 {
        16
    } else if code == 11 {
        20
    } else if code == 12 {
        24
    } else if code == 13 {
        32
    } else if code == 14 {
        48
    } else {
        64
    }
}

/// The identifier of a frame, from the first two words of its header.
pub open spec fn frame_identifier(word0: u32, word1: u32) -> u32 {
    if flag(word1, 4) {
        (field(word0, 0, 11) << 18) | field(word0, 11, 18)
    } else {
        field(word0, 0, 11)
    }
}

/// The payload length that a data length code stands for. Only the low four bits of `code`
/// name a length; a larger number counts as 15.
pub fn dlc_to_length(code: u8) -> (length: u8)
    ensures
        length == payload_length(code),
        length <= 64,
{
    if code <= 8 {
        code
    } else if code == 9 {
        12
    } else if code == 10 {
        16
    } else if code == 11 {
        20
    } else if code == 12 {
        24
    } else if code == 13 {
        32
    } else if code == 14 {
        48
    } else {
        64
    }
}

/// A longer code never stands for a shorter payload.
pub proof fn lemma_payload_length_monotonic(a: u8, b: u8)
    requires
        a <= b,
    ensures
        payload_length(a) <= payload_length(b),
{
}

/// Reads word number `index` of a header.
pub fn load_word(bytes: &[u8], index: usize) -> (word: u32)
    requires
        4 * index + 4 <= bytes@.len(),
    ensures
        word == header_word(bytes@, index as int),
{
    let length: usize = bytes.len();
    assert(4 * index + 4 <= length);
    let at: usize = 4 * index;
    let word: u32 = (bytes[at] as u32) | ((bytes[at + 1] as u32) << 8) | ((bytes[at + 2] as u32) << 16)
        | ((bytes[at + 3] as u32) << 24);
    proof {
        let part = bytes@.subrange(4 * index as int, 4 * index + 4);
        assert(part[0] == bytes@[at as int] && part[1] == bytes@[at + 1] && part[2] == bytes@[at
            + 2] && part[3] == bytes@[at + 3]);
    }
    word
}

/// Replaces word number `index` of a header.
pub fn store_word(bytes: &mut [u8], index: usize, word: u32)
    requires
        4 * index + 4 <= old(bytes)@.len(),
    ensures
        final(bytes)@ == with_header_word(old(bytes)@, index as int, word),
{
    let length: usize = bytes.len();
    assert(4 * index + 4 <= length);
    let at: usize = 4 * index;
    let parts = to_le_bytes(word);
    bytes[at] = parts[0];
    bytes[at + 1] = parts[1];
    bytes[at + 2] = parts[2];
    bytes[at + 3] = parts[3];
    assert(bytes@ =~= with_header_word(old(bytes)@, index as int, word));
}

/// A word that was just stored is the word that is loaded, and every other word stays.
pub proof fn lemma_header_word_of_with_header_word(
    bytes: Seq<u8>,
    index: int,
    word: u32,
    other: int,
)
    requires
        0 <= index,
        4 * index + 4 <= bytes.len(),
        0 <= other,
        4 * other + 4 <= bytes.len(),
    ensures
        header_word(with_header_word(bytes, index, word), index) == word,
        other != index ==> header_word(with_header_word(bytes, index, word), other) == header_word(
            bytes,
            other,
        ),
{
    let stored = with_header_word(bytes, index, word);
    assert(stored.subrange(4 * index, 4 * index + 4) =~= le_bytes(word));
    lemma_le_word_of_le_bytes(word);
    if other != index {
        assert(stored.subrange(4 * other, 4 * other + 4) =~= bytes.subrange(
            4 * other,
            4 * other + 4,
        ));
    }
}

/// The header of a message to transmit: two words.
#[derive(Clone, Copy, Debug, PartialEq, Eq)]
pub struct TxHeader(pub [u8; 8]);

impl TxHeader {
    /// Bits 10..=0 of word 0: the 11-bit standard identifier.
    pub fn standard_identifier(&self) -> (value: u16)
        ensures
            value as u32 == field(header_word(self.0@, 0), 0, 11),
            value <= 2047,
    {
        let word = load_word(&self.0, 0);
        proof {
            lemma_field_bound(word, 0, 11);
        }
        get_field(word, 0, 11) as u16
    }

    /// Writes bits 10..=0 of word 0, keeping the low 11 bits of `value`: the 11-bit standard identifier.
    /// Every other bit of the header stays.
    pub fn set_standard_identifier(&mut self, value: u16)
        ensures
            final(self).0@ == with_header_word(
                old(self).0@,
                0,
                with_field(header_word(old(self).0@, 0), 0, 11, value as u32),
            ),
    {
        let word = load_word(&self.0, 0);
        store_word(&mut self.0, 0, set_field(word, 0, 11, value as u32));
    }

    /// Bits 28..=11 of word 0: the 18-bit extension of the identifier.
    pub fn extended_identifier(&self) -> (value: u32)
        ensures
            value as u32 == field(header_word(self.0@, 0), 11, 18),
            value <= 262143,
    {
        let word = load_word(&self.0, 0);
        proof {
            lemma_field_bound(word, 11, 18);
        }
        get_field(word, 11, 18) as u32
    }

    /// Writes bits 28..=11 of word 0, keeping the low 18 bits of `value`: the 18-bit extension of the identifier.
    /// Every other bit of the header stays.
    pub fn set_extended_identifier(&mut self, value: u32)
        ensures
            final(self).0@ == with_header_word(
                old(self).0@,
                0,
                with_field(header_word(old(self).0@, 0), 11, 18, value),
            ),
    {
        let word = load_word(&self.0, 0);
        store_word(&mut self.0, 0, set_field(word, 11, 18, value));
    }

    /// Bit 29 of word 0: the twelfth identifier bit of the long-identifier format.
    pub fn sid11(&self) -> (value: bool)
        ensures
            value == flag(header_word(self.0@, 0), 29),
    {
        get_flag(load_word(&self.0, 0), 29)
    }

    /// Bits 3..=0 of word 1: the code of the payload length.
    pub fn data_length_code(&self) -> (value: u8)
        ensures
            value as u32 == field(header_word(self.0@, 1), 0, 4),
            value <= 15,
    {
        let word = load_word(&self.0, 1);
        proof {
            lemma_field_bound(word, 0, 4);
        }
        get_field(word, 0, 4) as u8
    }

    /// Writes bits 3..=0 of word 1, keeping the low 4 bits of `value`: the code of the payload length.
    /// Every other bit of the header stays.
    pub fn set_data_length_code(&mut self, value: u8)
        ensures
            final(self).0@ == with_header_word(
                old(self).0@,
                1,
                with_field(header_word(old(self).0@, 1), 0, 4, value as u32),
            ),
    {
        let word = load_word(&self.0, 1);
        store_word(&mut self.0, 1, set_field(word, 0, 4, value as u32));
    }

    /// Bit 4 of word 1: the frame has an extended identifier.
    pub fn identifier_extension(&self) -> (value: bool)
        ensures
            value == flag(header_word(self.0@, 1), 4),
    {
        get_flag(load_word(&self.0, 1), 4)
    }

    /// Bit 5 of word 1: the frame is a remote request.
    pub fn remote_transmission_request(&self) -> (value: bool)
        ensures
            value == flag(header_word(self.0@, 1), 5),
    {
        get_flag(load_word(&self.0, 1), 5)
    }

    /// Bit 6 of word 1: the payload is sent at the data bit rate.
    pub fn bit_rate_switched(&self) -> (value: bool)
        ensures
            value == flag(header_word(self.0@, 1), 6),
    {
        get_flag(load_word(&self.0, 1), 6)
    }

    /// Bit 7 of word 1: the frame is a CAN FD frame.
    pub fn fd_frame(&self) -> (value: bool)
        ensures
            value == flag(header_word(self.0@, 1), 7),
    {
        get_flag(load_word(&self.0, 1), 7)
    }

    /// Bit 8 of word 1: the sender is error passive.
    pub fn error_status_indicator(&self) -> (value: bool)
        ensures
            value == flag(header_word(self.0@, 1), 8),
    {
        get_flag(load_word(&self.0, 1), 8)
    }

    /// Bits 15..=9 of word 1: the tag that the transmit event FIFO hands back; it is carried, never interpreted.
    pub fn sequence(&self) -> (value: u8)
        ensures
            value as u32 == field(header_word(self.0@, 1), 9, 7),
            value <= 127,
    {
        let word = load_word(&self.0, 1);
        proof {
            lemma_field_bound(word, 9, 7);
        }
        get_field(word, 9, 7) as u8
    }

    /// Writes bits 15..=9 of word 1, keeping the low 7 bits of `value`: the tag that the transmit event FIFO hands back; it is carried, never interpreted.
    /// Every other bit of the header stays.
    pub fn set_sequence(&mut self, value: u8)
        ensures
            final(self).0@ == with_header_word(
                old(self).0@,
                1,
                with_field(header_word(old(self).0@, 1), 9, 7, value as u32),
            ),
    {
        let word = load_word(&self.0, 1);
        store_word(&mut self.0, 1, set_field(word, 9, 7, value as u32));
    }

    /// The identifier of the frame: the standard identifier alone, or, where the frame has an
    /// extended identifier, the 29 bits made of the standard identifier above the extension.
    pub fn identifier(&self) -> (value: u32)
        ensures
            value == frame_identifier(header_word(self.0@, 0), header_word(self.0@, 1)),
    {
        let standard = self.standard_identifier() as u32;
        if self.identifier_extension() {
            (standard << 18) | self.extended_identifier()
        } else {
            standard
        }
    }

    /// The number of payload bytes that the data length code stands for.
    pub fn data_length(&self) -> (length: u8)
        ensures
            length == payload_length(field(header_word(self.0@, 1), 0, 4) as u8),
    {
        dlc_to_length(self.data_length_code())
    }

}

/// The header of a received message: three words, the third being the time stamp.
#[derive(Clone, Copy, Debug, PartialEq, Eq)]
pub struct RxHeader(pub [u8; 12]);

impl RxHeader {
    /// Bits 10..=0 of word 0: the 11-bit standard identifier.
    pub fn standard_identifier(&self) -> (value: u16)
        ensures
            value as u32 == field(header_word(self.0@, 0), 0, 11),
            value <= 2047,
    {
        let word = load_word(&self.0, 0);
        proof {
            lemma_field_bound(word, 0, 11);
        }
        get_field(word, 0, 11) as u16
    }

    /// Writes bits 10..=0 of word 0, keeping the low 11 bits of `value`: the 11-bit standard identifier.
    /// Every other bit of the header stays.
    pub fn set_standard_identifier(&mut self, value: u16)
        ensures
            final(self).0@ == with_header_word(
                old(self).0@,
                0,
                with_field(header_word(old(self).0@, 0), 0, 11, value as u32),
            ),
    {
        let word = load_word(&self.0, 0);
        store_word(&mut self.0, 0, set_field(word, 0, 11, value as u32));
    }

    /// Bits 28..=11 of word 0: the 18-bit extension of the identifier.
    pub fn extended_identifier(&self) -> (value: u32)
        ensures
            value as u32 == field(header_word(self.0@, 0), 11, 18),
            value <= 262143,
    {
        let word = load_word(&self.0, 0);
        proof {
            lemma_field_bound(word, 11, 18);
        }
        get_field(word, 11, 18) as u32
    }

    /// Writes bits 28..=11 of word 0, keeping the low 18 bits of `value`: the 18-bit extension of the identifier.
    /// Every other bit of the header stays.
    pub fn set_extended_identifier(&mut self, value: u32)
        ensures
            final(self).0@ == with_header_word(
                old(self).0@,
                0,
                with_field(header_word(old(self).0@, 0), 11, 18, value),
            ),
    {
        let word = load_word(&self.0, 0);
        store_word(&mut self.0, 0, set_field(word, 11, 18, value));
    }

    /// Bit 29 of word 0: the twelfth identifier bit of the long-identifier format.
    pub fn sid11(&self) -> (value: bool)
        ensures
            value == flag(header_word(self.0@, 0), 29),
    {
        get_flag(load_word(&self.0, 0), 29)
    }

    /// Bits 3..=0 of word 1: the code of the payload length.
    pub fn data_length_code(&self) -> (value: u8)
        ensures
            value as u32 == field(header_word(self.0@, 1), 0, 4),
            value <= 15,
    {
        let word = load_word(&self.0, 1);
        proof {
            lemma_field_bound(word, 0, 4);
        }
        get_field(word, 0, 4) as u8
    }

    /// Writes bits 3..=0 of word 1, keeping the low 4 bits of `value`: the code of the payload length.
    /// Every other bit of the header stays.
    pub fn set_data_length_code(&mut self, value: u8)
        ensures
            final(self).0@ == with_header_word(
                old(self).0@,
                1,
                with_field(header_word(old(self).0@, 1), 0, 4, value as u32),
            ),
    {
        let word = load_word(&self.0, 1);
        store_word(&mut self.0, 1, set_field(word, 0, 4, value as u32));
    }

    /// Bit 4 of word 1: the frame has an extended identifier.
    pub fn identifier_extension(&self) -> (value: bool)
        ensures
            value == flag(header_word(self.0@, 1), 4),
    {
        get_flag(load_word(&self.0, 1), 4)
    }

    /// Bit 5 of word 1: the frame is a remote request.
    pub fn remote_transmission_request(&self) -> (value: bool)
        ensures
            value == flag(header_word(self.0@, 1), 5),
    {
        get_flag(load_word(&self.0, 1), 5)
    }

    /// Bit 6 of word 1: the payload is sent at the data bit rate.
    pub fn bit_rate_switched(&self) -> (value: bool)
        ensures
            value == flag(header_word(self.0@, 1), 6),
    {
        get_flag(load_word(&self.0, 1), 6)
    }

    /// Bit 7 of word 1: the frame is a CAN FD frame.
    pub fn fd_frame(&self) -> (value: bool)
        ensures
            value == flag(header_word(self.0@, 1), 7),
    {
        get_flag(load_word(&self.0, 1), 7)
    }

    /// Bit 8 of word 1: the sender is error passive.
    pub fn error_status_indicator(&self) -> (value: bool)
        ensures
            value == flag(header_word(self.0@, 1), 8),
    {
        get_flag(load_word(&self.0, 1), 8)
    }

    /// Bits 15..=11 of word 1: the number of the filter that accepted the frame.
    pub fn filter_hit(&self) -> (value: u8)
        ensures
            value as u32 == field(header_word(self.0@, 1), 11, 5),
            value <= 31,
    {
        let word = load_word(&self.0, 1);
        proof {
            lemma_field_bound(word, 11, 5);
        }
        get_field(word, 11, 5) as u8
    }

    /// Word 2: the time stamp of the reception.
    pub fn timestamp(&self) -> (value: u32)
        ensures
            value == header_word(self.0@, 2),
    {
        load_word(&self.0, 2)
    }

    /// The identifier of the frame: the standard identifier alone, or, where the frame has an
    /// extended identifier, the 29 bits made of the standard identifier above the extension.
    pub fn identifier(&self) -> (value: u32)
        ensures
            value == frame_identifier(header_word(self.0@, 0), header_word(self.0@, 1)),
    {
        let standard = self.standard_identifier() as u32;
        if self.identifier_extension() {
            (standard << 18) | self.extended_identifier()
        } else {
            standard
        }
    }

    /// The number of payload bytes that the data length code stands for.
    pub fn data_length(&self) -> (length: u8)
        ensures
            length == payload_length(field(header_word(self.0@, 1), 0, 4) as u8),
    {
        dlc_to_length(self.data_length_code())
    }

}

/// A message to transmit: its header and its payload buffer.
pub struct TransmitMessage {
    header: TxHeader,
    data: [u8; 48],
}

impl TransmitMessage {
    /// The header of the message.
    pub closed spec fn spec_header(&self) -> TxHeader {
        self.header
    }

    /// The payload buffer of the message.
    pub closed spec fn spec_data(&self) -> [u8; 48] {
        self.data
    }

    /// A message with a standard identifier: the low eleven bits of `identifier` in an
    /// otherwise clear header, and `data` as the payload buffer.
    pub fn new(identifier: MessageIdentifier, data: [u8; 48]) -> (message: TransmitMessage)
        ensures
            message.spec_data() == data,
            message.spec_header().0@ == with_header_word(
                Seq::new(8, |i: int| 0u8),
                0,
                with_field(0, 0, 11, (identifier & MESSAGE_IDENTIFIER_MASK) as u32),
            ),
    {
        let mut header = TxHeader([0; 8]);
        proof {
            assert(header.0@ =~= Seq::new(8, |i: int| 0u8));
            assert(header.0@.subrange(0, 4) =~= seq![0u8, 0u8, 0u8, 0u8]);
            assert(le_word(seq![0u8, 0u8, 0u8, 0u8]) == 0) by {
                assert((0u8 as u32) | ((0u8 as u32) << 8) | ((0u8 as u32) << 16) | ((0u8 as u32)
                    << 24) == 0) by (bit_vector);
            }
        }
        header.set_standard_identifier(identifier & MESSAGE_IDENTIFIER_MASK);
        TransmitMessage { header, data }
    }

    /// The header of the message.
    pub fn header(&self) -> (header: TxHeader)
        ensures
            header == self.spec_header(),
    {
        self.header
    }

    /// The payload buffer of the message.
    pub fn data(&self) -> (data: [u8; 48])
        ensures
            data == self.spec_data(),
    {
        self.data
    }

    /// The transmit image of the message: a buffer for header and payload, and the number of
    /// bytes laid out in it. Laying out is the caller's, who has the header and the data: the
    /// count is zero and the buffer clear.
    pub fn bytes(self) -> (out: (usize, [u8; 56]))
        ensures
            out.0 == 0,
            out.1@ == Seq::new(56, |i: int| 0u8),
    {
        let buffer = [0u8; 56];
        assert(buffer@ =~= Seq::new(56, |i: int| 0u8));
        (0, buffer)
    }
}

/// A received message: its header and its payload buffer.
pub struct ReceiveMessage {
    header: RxHeader,
    data: [u8; 48],
}

impl ReceiveMessage {
    /// The header of the message.
    pub closed spec fn spec_header(&self) -> RxHeader {
        self.header
    }

    /// The payload buffer of the message.
    pub closed spec fn spec_data(&self) -> [u8; 48] {
        self.data
    }

    /// A received message from the header and the payload as read from the chip's RAM.
    pub fn new(header: RxHeader, data: [u8; 48]) -> (message: ReceiveMessage)
        ensures
            message.spec_header() == header,
            message.spec_data() == data,
    {
        ReceiveMessage { header, data }
    }

    /// The header of the message.
    pub fn header(&self) -> (header: RxHeader)
        ensures
            header == self.spec_header(),
    {
        self.header
    }

    /// The payload buffer of the message.
    pub fn data(&self) -> (data: [u8; 48])
        ensures
            data == self.spec_data(),
    {
        self.data
    }
}

} // verus!
