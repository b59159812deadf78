//! The message header codecs, held against the accessors of the `bitfield` crate on the same
//! bits: bit `n` of a header is bit `n % 8` of byte `n / 8`, which is bit `n` of the bytes read
//! as one little-endian number.
use bitfield::{Bit, BitRange};
use mcp2517fd::message::{
    dlc_to_length, load_word, store_word, ReceiveMessage, RxHeader, TransmitMessage, TxHeader,
    MAX_BUFFER_SIZE, MESSAGE_IDENTIFIER_MASK, RX_HEADER_SIZE, TX_HEADER_SIZE,
};

const TX_SAMPLES: [[u8; 8]; 4] = [
    [0; 8],
    [0xFF; 8],
    [0x12, 0x34, 0x56, 0x78, 0x9A, 0xBC, 0xDE, 0xF0],
    [0x01, 0x80, 0x00, 0x20, 0x1F, 0x01, 0x00, 0x00],
];

fn wide(bytes: &[u8]) -> u128 {
    let mut all = [0u8; 16];
    all[..bytes.len()].copy_from_slice(bytes);
    u128::from_le_bytes(all)
}

#[test]
fn sizes() {
    assert_eq!(TX_HEADER_SIZE, 8);
    assert_eq!(RX_HEADER_SIZE, 12);
    assert_eq!(MAX_BUFFER_SIZE, 48);
    assert_eq!(MESSAGE_IDENTIFIER_MASK, 0x7FF);
}

#[test]
fn data_length_codes_follow_the_can_fd_table() {
    let table = [0u8, 1, 2, 3, 4, 5, 6, 7, 8, 12, 16, 20, 24, 32, 48, 64];
    for (code, length) in table.iter().enumerate() {
        assert_eq!(dlc_to_length(code as u8), *length);
    }
    let mut header = TxHeader([0; 8]);
    header.set_data_length_code(13);
    assert_eq!(header.data_length_code(), 13);
    assert_eq!(header.data_length(), 32);
    assert_eq!(header.0, [0, 0, 0, 0, 13, 0, 0, 0]);
}

#[test]
fn words_of_a_header_are_little_endian() {
    let mut bytes = [0x12, 0x34, 0x56, 0x78, 0x9A, 0xBC, 0xDE, 0xF0];
    assert_eq!(load_word(&bytes, 0), 0x7856_3412);
    assert_eq!(load_word(&bytes, 1), 0xF0DE_BC9A);
    store_word(&mut bytes, 1, 0x0102_0304);
    assert_eq!(bytes, [0x12, 0x34, 0x56, 0x78, 4, 3, 2, 1]);
}

#[test]
fn tx_header_reads_the_bits_that_the_bitfield_crate_reads() {
    for sample in TX_SAMPLES {
        let header = TxHeader(sample);
        let bytes = wide(&sample);
        let sid: u16 = bytes.bit_range(10, 0);
        let eid: u32 = bytes.bit_range(28, 11);
        let dlc: u8 = bytes.bit_range(35, 32);
        let sequence: u8 = bytes.bit_range(47, 41);
        assert_eq!(header.standard_identifier(), sid);
        assert_eq!(header.extended_identifier(), eid);
        assert_eq!(header.sid11(), bytes.bit(29));
        assert_eq!(header.data_length_code(), dlc);
        assert_eq!(header.identifier_extension(), bytes.bit(36));
        assert_eq!(header.remote_transmission_request(), bytes.bit(37));
        assert_eq!(header.bit_rate_switched(), bytes.bit(38));
        assert_eq!(header.fd_frame(), bytes.bit(39));
        assert_eq!(header.error_status_indicator(), bytes.bit(40));
        assert_eq!(header.sequence(), sequence);
    }
}

#[test]
fn tx_header_writes_the_bits_that_the_bitfield_crate_writes() {
    for bytes in TX_SAMPLES {
        let mut header = TxHeader(bytes);
        let mut expected = wide(&bytes);
        header.set_standard_identifier(0x5A5);
        expected.set_bit_range(10, 0, 0x5A5u16);
        header.set_extended_identifier(0x2_1234);
        expected.set_bit_range(28, 11, 0x2_1234u32);
        header.set_data_length_code(0xC);
        expected.set_bit_range(35, 32, 0xCu8);
        header.set_sequence(0x55);
        expected.set_bit_range(47, 41, 0x55u8);
        assert_eq!(header.0[..], expected.to_le_bytes()[..8]);
        assert_eq!(header.standard_identifier(), 0x5A5);
        assert_eq!(header.extended_identifier(), 0x2_1234);
        assert_eq!(header.data_length_code(), 0xC);
        assert_eq!(header.sequence(), 0x55);
    }
}

#[test]
fn setters_keep_only_the_bits_of_their_field() {
    let mut header = TxHeader([0; 8]);
    header.set_standard_identifier(0xFFFF);
    assert_eq!(header.0, [0xFF, 0x07, 0, 0, 0, 0, 0, 0]);
    header.set_sequence(0xFF);
    assert_eq!(header.0, [0xFF, 0x07, 0, 0, 0, 0xFE, 0, 0]);
    header.set_extended_identifier(0xFFFF_FFFF);
    assert_eq!(header.0, [0xFF, 0xFF, 0xFF, 0x1F, 0, 0xFE, 0, 0]);
}

#[test]
fn identifier_combines_the_extension_only_for_extended_frames() {
    let mut header = TxHeader([0; 8]);
    header.set_standard_identifier(0x123);
    header.set_extended_identifier(0x0_4567);
    assert_eq!(header.identifier(), 0x123);
    let mut extended = header.0;
    extended[4] |= 1 << 4;
    assert_eq!(TxHeader(extended).identifier(), (0x123 << 18) | 0x0_4567);
    let mut rx = [0u8; 12];
    rx[..8].copy_from_slice(&extended);
    assert_eq!(RxHeader(rx).identifier(), (0x123 << 18) | 0x0_4567);
}

#[test]
fn rx_header_adds_filter_hit_and_timestamp() {
    let sample: [u8; 12] = [0x21, 0x43, 0x65, 0x07, 0xFF, 0xA9, 0x00, 0x00, 0x78, 0x56, 0x34, 0x12];
    let header = RxHeader(sample);
    let bytes = wide(&sample);
    let filter: u8 = bytes.bit_range(47, 43);
    let stamp: u32 = bytes.bit_range(95, 64);
    let sid: u16 = bytes.bit_range(10, 0);
    assert_eq!(header.filter_hit(), filter);
    assert_eq!(header.filter_hit(), 0x15);
    assert_eq!(header.timestamp(), stamp);
    assert_eq!(header.timestamp(), 0x1234_5678);
    assert_eq!(header.standard_identifier(), sid);
    assert_eq!(header.data_length_code(), 0xF);
    assert_eq!(header.data_length(), 64);
    assert!(header.identifier_extension() && header.fd_frame() && header.error_status_indicator());
    let mut changed = header;
    changed.set_standard_identifier(0x7FF);
    changed.set_extended_identifier(0);
    changed.set_data_length_code(2);
    assert_eq!(changed.timestamp(), 0x1234_5678);
    assert_eq!(changed.filter_hit(), 0x15);
    assert_eq!(changed.standard_identifier(), 0x7FF);
    assert_eq!(changed.data_length(), 2);
}

#[test]
fn transmit_message_holds_the_masked_identifier_and_the_data() {
    let mut data = [0u8; 48];
    data[0] = 0xAA;
    data[47] = 0x55;
    let message = TransmitMessage::new(0xFABC, data);
    assert_eq!(message.header().standard_identifier(), 0x2BC);
    assert_eq!(message.header().0, [0xBC, 0x02, 0, 0, 0, 0, 0, 0]);
    assert_eq!(message.data(), data);
    let (count, buffer) = message.bytes();
    assert_eq!(count, 0);
    assert_eq!(buffer, [0u8; 56]);
}

#[test]
fn receive_message_holds_header_and_data() {
    let header = RxHeader([1, 2, 3, 4, 5, 6, 7, 8, 9, 10, 11, 12]);
    let message = ReceiveMessage::new(header, [7u8; 48]);
    assert_eq!(message.header(), header);
    assert_eq!(message.data(), [7u8; 48]);
}
