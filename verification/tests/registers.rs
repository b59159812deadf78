//! The register model: addresses, bit fields and their symbolic values, held against the
//! accessors of the `bitfield` crate where both read the same bits.
use bitfield::{Bit, BitRange};
use mcp2517fd::bits::{from_le_bytes, get_field, get_flag, set_field, set_flag, to_le_bytes};
use mcp2517fd::can::control::{
    InterTransmissionDelay, InvalidCode, InvalidFifoSize, OperationMode, PayloadSize,
    RetransmissionAttempts, WakeupFilterTime, C1CON, C1TXQCON,
};
use mcp2517fd::can::fifo::{
    get_fifo_control_address, get_fifo_status_address, get_fifo_user_address, ControlRegister,
    StatusRegister, UserAddressRegister,
};
use mcp2517fd::generic::{
    encode_instruction, IOCONRegister, Instruction, OSCRegister, OpCode, Register, SFRAddress,
};
use mcp2517fd::sequence::{
    correct_queue_enable, program_io_word, program_oscillator_word, program_tx_queue_word,
    reports_configuration_mode, reports_pll_ready, request_word,
};
use mcp2517fd::settings::{
    IOConfiguration, Oscillator, SysClkDivider, TxQueueConfiguration, PLL,
};

const WORDS: [u32; 6] =
    [0, 0xFFFF_FFFF, 0xA5A5_5A5A, 0x1234_5678, 0x8000_0001, 0x00FF_FF00];

#[test]
fn fifo_lookups_are_distinct_for_1_to_31() {
    let mut seen: Vec<u16> = Vec::new();
    for n in 1..=31u8 {
        let control = get_fifo_control_address(n).unwrap();
        let status = get_fifo_status_address(n).unwrap();
        let user = get_fifo_user_address(n).unwrap();
        assert_ne!(control, status);
        for address in [control.value(), status.value(), user.value()] {
            assert!(!seen.contains(&address));
            seen.push(address);
        }
    }
    assert_eq!(seen.len(), 93);
}

#[test]
fn fifo_lookups_follow_the_register_map() {
    assert_eq!(get_fifo_control_address(1), Ok(SFRAddress::C1FIFOCON1));
    assert_eq!(get_fifo_status_address(1), Ok(SFRAddress::C1FIFOSTA1));
    assert_eq!(get_fifo_user_address(1), Ok(SFRAddress::C1FIFOUA1));
    assert_eq!(get_fifo_control_address(31), Ok(SFRAddress::C1FIFOCON31));
    assert_eq!(get_fifo_status_address(17), Ok(SFRAddress::C1FIFOSTA17));
    assert_eq!(SFRAddress::C1FIFOCON1.value(), 0x05C);
    assert_eq!(SFRAddress::C1FIFOSTA1.value(), 0x060);
    assert_eq!(SFRAddress::C1FIFOUA1.value(), 0x064);
    assert_eq!(SFRAddress::C1FIFOCON2.value(), 0x068);
    assert_eq!(SFRAddress::C1FIFOUA31.value(), 0x1CC);
    for n in 1..=31u16 {
        assert_eq!(get_fifo_control_address(n as u8).unwrap().value(), 0x05C + 12 * (n - 1));
        assert_eq!(get_fifo_status_address(n as u8).unwrap().value(), 0x060 + 12 * (n - 1));
        assert_eq!(get_fifo_user_address(n as u8).unwrap().value(), 0x064 + 12 * (n - 1));
    }
}

#[test]
fn fifo_lookups_hand_back_numbers_outside_1_to_31() {
    for n in (0..=255u8).filter(|n| !(1..=31).contains(n)) {
        assert_eq!(get_fifo_control_address(n), Err(n));
        assert_eq!(get_fifo_status_address(n), Err(n));
        assert_eq!(get_fifo_user_address(n), Err(n));
    }
}

#[test]
fn fixed_register_addresses() {
    assert_eq!(SFRAddress::C1CON.value(), 0x000);
    assert_eq!(SFRAddress::C1TEFCON.value(), 0x040);
    assert_eq!(SFRAddress::C1TXQCON.value(), 0x050);
    assert_eq!(SFRAddress::OSC.value(), 0xE00);
    assert_eq!(SFRAddress::IOCON.value(), 0xE04);
    assert_eq!(C1CON::address(), SFRAddress::C1CON);
    assert_eq!(C1TXQCON::address(), SFRAddress::C1TXQCON);
    assert_eq!(OSCRegister::address(), SFRAddress::OSC);
    assert_eq!(IOCONRegister::address(), SFRAddress::IOCON);
    assert_eq!(C1CON::from_word(0x55).into_word(), 0x55);
}

#[test]
fn instruction_is_opcode_above_address_high_byte_first() {
    assert_eq!(encode_instruction(OpCode::Reset, 0), [0x00, 0x00]);
    assert_eq!(encode_instruction(OpCode::Read, 0xE04), [0x3E, 0x04]);
    assert_eq!(encode_instruction(OpCode::Write, 0x400), [0x24, 0x00]);
    assert_eq!(encode_instruction(OpCode::Read, 0xBFF), [0x3B, 0xFF]);
    // Only twelve bits of the address are carried.
    assert_eq!(encode_instruction(OpCode::Write, 0xF123), [0x21, 0x23]);
    let mut instruction = Instruction::new(OpCode::Read);
    assert_eq!(instruction.0, 0x3000);
    instruction.set_address(0x05C);
    assert_eq!(instruction.0, 0x305C);
    assert_eq!(instruction.opcode(), 0b0011);
    assert_eq!(instruction.address(), 0x05C);
    assert_eq!(instruction.to_spi_data(), 0x305Cu16.to_be_bytes());
}

#[test]
fn words_cross_as_little_endian_bytes() {
    for word in WORDS {
        assert_eq!(to_le_bytes(word), word.to_le_bytes());
        assert_eq!(from_le_bytes(&word.to_le_bytes()), word);
    }
    assert_eq!(to_le_bytes(0x0102_0304), [4, 3, 2, 1]);
}

#[test]
fn fields_read_the_bits_that_the_bitfield_crate_reads() {
    for word in WORDS {
        for (msb, lsb) in [(4u32, 0u32), (10, 9), (20, 16), (22, 21), (23, 21), (28, 24), (31, 29), (31, 28)] {
            let expected: u32 = word.bit_range(msb as usize, lsb as usize);
            assert_eq!(get_field(word, lsb, msb - lsb + 1), expected);
        }
        for bit in 0..32u32 {
            assert_eq!(get_flag(word, bit), word.bit(bit as usize));
        }
        assert_eq!(get_field(word, 0, 32), word);
    }
}

#[test]
fn fields_write_the_bits_that_the_bitfield_crate_writes() {
    for word in WORDS {
        for value in [0u32, 1, 5, 0x1F, 0xFF, 0xFFFF_FFFF] {
            for (msb, lsb) in [(4u32, 0u32), (10, 9), (20, 16), (28, 24), (31, 29), (31, 0)] {
                let mut expected = word;
                expected.set_bit_range(msb as usize, lsb as usize, value);
                assert_eq!(set_field(word, lsb, msb - lsb + 1, value), expected);
            }
        }
        for bit in 0..32u32 {
            for value in [false, true] {
                let mut expected = word;
                expected.set_bit(bit as usize, value);
                assert_eq!(set_flag(word, bit, value), expected);
            }
        }
    }
}

#[test]
fn can_control_fields_sit_where_the_data_sheet_puts_them() {
    let mut register = C1CON(0);
    register.set_dncnt(0x1F);
    register.set_isocrcen(true);
    register.set_stef(true);
    register.set_txqen(true);
    register.set_abat(true);
    assert_eq!(register.0, 0x1F | (1 << 5) | (1 << 19) | (1 << 20) | (1 << 27));
    assert_eq!(register.dncnt(), 0x1F);
    assert!(register.stef() && register.txqen() && register.abat() && register.isocrcen());
    assert!(!register.busy() && !register.pxedis() && !register.wakfil());
    register.set_stef(false);
    assert_eq!(register.0, 0x1F | (1 << 5) | (1 << 20) | (1 << 27));
    assert!(C1CON(1 << 11).busy());
    let mut wide = C1CON(0);
    wide.set_dncnt(0xFF);
    assert_eq!(wide.0, 0x1F);
}

#[test]
fn wakeup_filter_time_round_trips() {
    for filter in [
        WakeupFilterTime::T00Filter,
        WakeupFilterTime::T01Filter,
        WakeupFilterTime::T10Filter,
        WakeupFilterTime::T11Filter,
    ] {
        for word in WORDS {
            let mut register = C1CON(word);
            register.set_wft(filter);
            assert_eq!(register.wft(), Ok(filter));
            assert_eq!(register.0 & !(0b11 << 9), word & !(0b11 << 9));
        }
    }
}

#[test]
fn transmission_delay_round_trips_and_reports_unmapped_codes() {
    let all = [
        InterTransmissionDelay::NoDelay,
        InterTransmissionDelay::Delay2,
        InterTransmissionDelay::Delay4,
        InterTransmissionDelay::Delay8,
        InterTransmissionDelay::Delay16,
        InterTransmissionDelay::Delay32,
        InterTransmissionDelay::Delay64,
        InterTransmissionDelay::Delay128,
        InterTransmissionDelay::Delay256,
        InterTransmissionDelay::Delay512,
        InterTransmissionDelay::Delay1024,
        InterTransmissionDelay::Delay2048,
        InterTransmissionDelay::Delay4096,
    ];
    for (code, delay) in all.iter().enumerate() {
        assert_eq!(delay.code() as usize, code);
        let mut register = C1CON(0x0FFF_FFFF);
        register.set_txbws(*delay);
        assert_eq!(register.txbws(), Ok(*delay));
        assert_eq!(register.0 >> 28, code as u32);
    }
    for code in 13..=15u8 {
        assert_eq!(C1CON((code as u32) << 28).txbws(), Err(InvalidCode { number: code }));
        assert_eq!(
            InterTransmissionDelay::try_from_primitive(code),
            Err(InvalidCode { number: code })
        );
    }
}

#[test]
fn operation_mode_round_trips_for_the_eight_modes() {
    let modes = [
        (OperationMode::NormalCanFD, 0u32),
        (OperationMode::Sleep, 1),
        (OperationMode::InternalLoopback, 2),
        (OperationMode::ListenOnly, 3),
        (OperationMode::Configuration, 4),
        (OperationMode::ExternalLoopback, 5),
        (OperationMode::NormalCan2, 6),
        (OperationMode::Restricted, 7),
    ];
    for (mode, code) in modes {
        assert_eq!(mode.code() as u32, code);
        assert_eq!(OperationMode::try_from_primitive(code as u8), Ok(mode));
        assert_eq!(C1CON(code << 21).opmode(), mode);
        for word in WORDS {
            let mut register = C1CON(word);
            register.set_opmode(mode);
            assert_eq!(register.opmode(), mode);
            assert_eq!(register.0, (word & !(0b111 << 21)) | (code << 21));
        }
    }
}

#[test]
fn operation_mode_unknown_has_a_code_that_no_field_holds() {
    assert_eq!(OperationMode::Unknown.code(), 0xFF);
    assert_eq!(OperationMode::try_from_primitive(0xFF), Ok(OperationMode::Unknown));
    assert_eq!(OperationMode::try_from_primitive(8), Err(InvalidCode { number: 8 }));
    let mut register = C1CON(0);
    register.set_opmode(OperationMode::Unknown);
    assert_eq!(register.0, 0b111 << 21);
    assert_eq!(register.opmode(), OperationMode::Restricted);
}

#[test]
fn retransmission_attempts_round_trip_and_fall_back() {
    for (value, code) in [
        (RetransmissionAttempts::Disabled, 0u32),
        (RetransmissionAttempts::ThreeRetries, 1),
        (RetransmissionAttempts::UnlimitedRetries, 3),
    ] {
        let mut register = C1TXQCON(0xFFFF_FFFF);
        register.set_retransmission_attempts(value);
        assert_eq!(register.retransmission_attempts(), value);
        assert_eq!((register.0 >> 21) & 0b11, code);
    }
    assert_eq!(
        C1TXQCON(0b10 << 21).retransmission_attempts(),
        RetransmissionAttempts::UnlimitedRetries
    );
    assert_eq!(RetransmissionAttempts::try_from_primitive(2), Err(InvalidCode { number: 2 }));
}

#[test]
fn payload_size_round_trips_for_every_code() {
    let all = [
        PayloadSize::Bytes8,
        PayloadSize::Bytes12,
        PayloadSize::Bytes16,
        PayloadSize::Bytes20,
        PayloadSize::Bytes24,
        PayloadSize::Bytes32,
        PayloadSize::Bytes48,
        PayloadSize::Bytes64,
    ];
    for (code, size) in all.iter().enumerate() {
        let mut register = C1TXQCON(0x1234_5678);
        register.set_payload_size(*size);
        assert_eq!(register.payload_size(), *size);
        assert_eq!(register.0 >> 29, code as u32);
        assert_eq!(C1TXQCON((code as u32) << 29).payload_size(), *size);
    }
    assert_eq!(PayloadSize::try_from_primitive(8), Err(InvalidCode { number: 8 }));
}

#[test]
fn fifo_size_is_stored_less_one_and_clamped_to_32() {
    let mut register = C1TXQCON(0);
    assert_eq!(register.set_fifo_size(33), Ok(()));
    assert_eq!(register.fifo_size(), 32);
    assert_eq!(register.0, 31 << 24);
    assert_eq!(register.set_fifo_size(1), Ok(()));
    assert_eq!(register.fifo_size(), 1);
    assert_eq!(register.0, 0);
    assert_eq!(register.set_fifo_size(32), Ok(()));
    assert_eq!(register.fifo_size(), 32);
    assert_eq!(register.set_fifo_size(255), Ok(()));
    assert_eq!(register.fifo_size(), 32);
    for size in 1..=32u8 {
        assert_eq!(register.set_fifo_size(size), Ok(()));
        assert_eq!(register.fifo_size(), size);
    }
}

#[test]
fn fifo_size_zero_is_refused_and_changes_nothing() {
    let mut register = C1TXQCON(0x0700_0000);
    assert_eq!(register.set_fifo_size(0), Err(InvalidFifoSize(0)));
    assert_eq!(register.0, 0x0700_0000);
    assert_eq!(register.fifo_size(), 8);
}

#[test]
fn queue_priorities() {
    assert_eq!(C1TXQCON::highest_priority(), 31);
    assert_eq!(C1TXQCON::lowest_priority(), 0);
    let mut register = C1TXQCON(0);
    register.set_txpri(C1TXQCON::highest_priority());
    assert_eq!(register.0, 31 << 16);
    assert_eq!(register.txpri(), 31);
    assert!(C1TXQCON(1 << 7).txen());
    assert!(C1TXQCON(1 << 10).freset());
}

#[test]
fn fifo_registers_sit_where_the_data_sheet_puts_them() {
    let mut control = ControlRegister(0);
    control.set_tfnrnfie(true);
    control.set_txen(true);
    control.set_txpri(0x1F);
    control.set_txat(3);
    control.set_fsize(0x1F);
    control.set_plsize(7);
    assert_eq!(control.0, 1 | (1 << 7) | (0x1F << 16) | (3 << 21) | (0x1F << 24) | (7 << 29));
    assert!(control.tfnrfnie() && control.txen());
    assert_eq!((control.txpri(), control.txat(), control.fsize(), control.plsize()), (31, 3, 31, 7));
    let status = StatusRegister(0x0000_1F80);
    assert!(status.txabt());
    assert_eq!(status.fifoci(), 0x1F);
    let mut user = UserAddressRegister(0);
    user.set_fifoua(0xDEAD_BEEF);
    assert_eq!(user.fifoua(), 0xDEAD_BEEF);
}

#[test]
fn oscillator_and_pin_registers_sit_where_the_data_sheet_puts_them() {
    let mut osc = OSCRegister(0);
    osc.set_pllen(true);
    osc.set_oscdis(true);
    osc.set_slckdiv(true);
    osc.set_clkodiv(3);
    assert_eq!(osc.0, 1 | (1 << 2) | (1 << 4) | (3 << 5));
    assert!(OSCRegister(1 << 8).pllrdy());
    assert!(OSCRegister(1 << 10).oscrdy());
    assert!(OSCRegister(1 << 12).sclkrdy());
    let mut io = IOCONRegister(0);
    io.set_xstbyen(true);
    io.set_txcanod(true);
    io.set_sof(true);
    io.set_intod(true);
    assert_eq!(io.0, (1 << 6) | (1 << 28) | (1 << 29) | (1 << 30));
}

#[test]
fn sequence_words() {
    assert_eq!(request_word(0x07E0_0760), 0x0780_0760);
    assert!(reports_configuration_mode(request_word(0)));
    assert!(reports_configuration_mode(4 << 21));
    assert!(!reports_configuration_mode(4 << 24));
    assert!(!reports_configuration_mode(0));
    assert!(reports_pll_ready(1 << 8));
    assert!(!reports_pll_ready(!(1u32 << 8)));
    let on = Oscillator { pll: PLL::On, divider: SysClkDivider::DivByOne };
    let off = Oscillator { pll: PLL::Off, divider: SysClkDivider::DivByTwo };
    assert_eq!(program_oscillator_word(0x0000_0014, &on), 0x0000_0001);
    assert_eq!(program_oscillator_word(0x0000_0005, &off), 0x0000_0010);
    let io = IOConfiguration {
        enable_tx_standby_pin: false,
        txcan_open_drain: true,
        sof_on_clko: false,
        interrupt_pin_open_drain: true,
    };
    assert_eq!(program_io_word(0x2000_0043, &io), 0x5000_0003);
}

#[test]
fn queue_word_keeps_size_fields_of_an_unused_queue() {
    let unused = TxQueueConfiguration {
        message_priority: 0x1F,
        retransmission_attempts: RetransmissionAttempts::UnlimitedRetries,
        fifo_size: 0,
        payload_size: PayloadSize::Bytes64,
    };
    for word in WORDS {
        let programmed = program_tx_queue_word(word, &unused);
        assert_eq!(programmed >> 24, word >> 24);
        assert_eq!((programmed >> 16) & 0x7F, 0x7F);
        assert_eq!(programmed & 0xFF80_FFFF, word & 0xFF80_FFFF);
    }
    let used = TxQueueConfiguration { fifo_size: 8, ..unused };
    assert_eq!(program_tx_queue_word(0, &used), (7 << 29) | (7 << 24) | (3 << 21) | (0x1F << 16));
}

#[test]
fn queue_enable_is_corrected_only_on_disagreement() {
    assert_eq!(correct_queue_enable(0, false), None);
    assert_eq!(correct_queue_enable(1 << 20, true), None);
    assert_eq!(correct_queue_enable((1 << 20) | (1 << 19) | 5, false), Some(5));
    assert_eq!(correct_queue_enable((1 << 19) | 5, true), Some((1 << 20) | 5));
    assert_eq!(correct_queue_enable(1 << 19, false), None);
}
