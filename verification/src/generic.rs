//! What every part of the driver shares: register addresses, the instruction word that opens
//! each bus transaction, and the two registers of the chip that lie outside the CAN block.
use crate::bits::{field, flag, get_field, get_flag, lemma_field_bound, set_field, set_flag, with_field, with_flag};
use vstd::prelude::*;

verus! {

/// One 32-bit special function register of the chip, named as in the data sheet.
#[derive(Clone, Copy, Debug, PartialEq, Eq, Structural)]
#[allow(non_camel_case_types)]
pub enum SFRAddress {
    /// The CAN control register.
    C1CON,
    /// The nominal bit time configuration register.
    C1NBTCFG,
    /// The data bit time configuration register.
    C1DBTCFG,
    /// The transmitter delay compensation register.
    C1TDC,
    /// The time base counter register.
    C1TBC,
    /// The time stamp control register.
    C1TSCON,
    /// The interrupt code register.
    C1VEC,
    /// The interrupt flags and enables register.
    C1INT,
    /// The receive interrupt status register.
    C1RXIF,
    /// The transmit interrupt status register.
    C1TXIF,
    /// The receive overflow interrupt status register.
    C1RXOVIF,
    /// The transmit attempt interrupt status register.
    C1TXATIF,
    /// The transmit request register.
    C1TXREQ,
    /// The transmit and receive error counts register.
    C1TREC,
    /// The bus diagnostics 0 register.
    C1BDIAG0,
    /// The bus diagnostics 1 register.
    C1BDIAG1,
    /// The transmit event FIFO control register.
    C1TEFCON,
    /// The transmit event FIFO status register.
    C1TEFSTA,
    /// The transmit event FIFO user address register.
    C1TEFUA,
    /// The transmit queue control register.
    C1TXQCON,
    /// The transmit queue status register.
    C1TXQSTA,
    /// The transmit queue user address register.
    C1TXQUA,
    /// The control of FIFO 1 register.
    C1FIFOCON1,
    /// The control of FIFO 2 register.
    C1FIFOCON2,
    /// The control of FIFO 3 register.
    C1FIFOCON3,
    /// The control of FIFO 4 register.
    C1FIFOCON4,
    /// The control of FIFO 5 register.
    C1FIFOCON5,
    /// The control of FIFO 6 register.
    C1FIFOCON6,
    /// The control of FIFO 7 register.
    C1FIFOCON7,
    /// The control of FIFO 8 register.
    C1FIFOCON8,
    /// The control of FIFO 9 register.
    C1FIFOCON9,
    /// The control of FIFO 10 register.
    C1FIFOCON10,
    /// The control of FIFO 11 register.
    C1FIFOCON11,
    /// The control of FIFO 12 register.
    C1FIFOCON12,
    /// The control of FIFO 13 register.
    C1FIFOCON13,
    /// The control of FIFO 14 register.
    C1FIFOCON14,
    /// The control of FIFO 15 register.
    C1FIFOCON15,
    /// The control of FIFO 16 register.
    C1FIFOCON16,
    /// The control of FIFO 17 register.
    C1FIFOCON17,
    /// The control of FIFO 18 register.
    C1FIFOCON18,
    /// The control of FIFO 19 register.
    C1FIFOCON19,
    /// The control of FIFO 20 register.
    C1FIFOCON20,
    /// The control of FIFO 21 register.
    C1FIFOCON21,
    /// The control of FIFO 22 register.
    C1FIFOCON22,
    /// The control of FIFO 23 register.
    C1FIFOCON23,
    /// The control of FIFO 24 register.
    C1FIFOCON24,
    /// The control of FIFO 25 register.
    C1FIFOCON25,
    /// The control of FIFO 26 register.
    C1FIFOCON26,
    /// The control of FIFO 27 register.
    C1FIFOCON27,
    /// The control of FIFO 28 register.
    C1FIFOCON28,
    /// The control of FIFO 29 register.
    C1FIFOCON29,
    /// The control of FIFO 30 register.
    C1FIFOCON30,
    /// The control of FIFO 31 register.
    C1FIFOCON31,
    /// The status of FIFO 1 register.
    C1FIFOSTA1,
    /// The status of FIFO 2 register.
    C1FIFOSTA2,
    /// The status of FIFO 3 register.
    C1FIFOSTA3,
    /// The status of FIFO 4 register.
    C1FIFOSTA4,
    /// The status of FIFO 5 register.
    C1FIFOSTA5,
    /// The status of FIFO 6 register.
    C1FIFOSTA6,
    /// The status of FIFO 7 register.
    C1FIFOSTA7,
    /// The status of FIFO 8 register.
    C1FIFOSTA8,
    /// The status of FIFO 9 register.
    C1FIFOSTA9,
    /// The status of FIFO 10 register.
    C1FIFOSTA10,
    /// The status of FIFO 11 register.
    C1FIFOSTA11,
    /// The status of FIFO 12 register.
    C1FIFOSTA12,
    /// The status of FIFO 13 register.
    C1FIFOSTA13,
    /// The status of FIFO 14 register.
    C1FIFOSTA14,
    /// The status of FIFO 15 register.
    C1FIFOSTA15,
    /// The status of FIFO 16 register.
    C1FIFOSTA16,
    /// The status of FIFO 17 register.
    C1FIFOSTA17,
    /// The status of FIFO 18 register.
    C1FIFOSTA18,
    /// The status of FIFO 19 register.
    C1FIFOSTA19,
    /// The status of FIFO 20 register.
    C1FIFOSTA20,
    /// The status of FIFO 21 register.
    C1FIFOSTA21,
    /// The status of FIFO 22 register.
    C1FIFOSTA22,
    /// The status of FIFO 23 register.
    C1FIFOSTA23,
    /// The status of FIFO 24 register.
    C1FIFOSTA24,
    /// The status of FIFO 25 register.
    C1FIFOSTA25,
    /// The status of FIFO 26 register.
    C1FIFOSTA26,
    /// The status of FIFO 27 register.
    C1FIFOSTA27,
    /// The status of FIFO 28 register.
    C1FIFOSTA28,
    /// The status of FIFO 29 register.
    C1FIFOSTA29,
    /// The status of FIFO 30 register.
    C1FIFOSTA30,
    /// The status of FIFO 31 register.
    C1FIFOSTA31,
    /// The user address of FIFO 1 register.
    C1FIFOUA1,
    /// The user address of FIFO 2 register.
    C1FIFOUA2,
    /// The user address of FIFO 3 register.
    C1FIFOUA3,
    /// The user address of FIFO 4 register.
    C1FIFOUA4,
    /// The user address of FIFO 5 register.
    C1FIFOUA5,
    /// The user address of FIFO 6 register.
    C1FIFOUA6,
    /// The user address of FIFO 7 register.
    C1FIFOUA7,
    /// The user address of FIFO 8 register.
    C1FIFOUA8,
    /// The user address of FIFO 9 register.
    C1FIFOUA9,
    /// The user address of FIFO 10 register.
    C1FIFOUA10,
    /// The user address of FIFO 11 register.
    C1FIFOUA11,
    /// The user address of FIFO 12 register.
    C1FIFOUA12,
    /// The user address of FIFO 13 register.
    C1FIFOUA13,
    /// The user address of FIFO 14 register.
    C1FIFOUA14,
    /// The user address of FIFO 15 register.
    C1FIFOUA15,
    /// The user address of FIFO 16 register.
    C1FIFOUA16,
    /// The user address of FIFO 17 register.
    C1FIFOUA17,
    /// The user address of FIFO 18 register.
    C1FIFOUA18,
    /// The user address of FIFO 19 register.
    C1FIFOUA19,
    /// The user address of FIFO 20 register.
    C1FIFOUA20,
    /// The user address of FIFO 21 register.
    C1FIFOUA21,
    /// The user address of FIFO 22 register.
    C1FIFOUA22,
    /// The user address of FIFO 23 register.
    C1FIFOUA23,
    /// The user address of FIFO 24 register.
    C1FIFOUA24,
    /// The user address of FIFO 25 register.
    C1FIFOUA25,
    /// The user address of FIFO 26 register.
    C1FIFOUA26,
    /// The user address of FIFO 27 register.
    C1FIFOUA27,
    /// The user address of FIFO 28 register.
    C1FIFOUA28,
    /// The user address of FIFO 29 register.
    C1FIFOUA29,
    /// The user address of FIFO 30 register.
    C1FIFOUA30,
    /// The user address of FIFO 31 register.
    C1FIFOUA31,
    /// The oscillator control register.
    OSC,
    /// The input/output control register.
    IOCON,
    /// The bus CRC register.
    CRC,
    /// The error correction control register.
    ECCCON,
    /// The error correction status register.
    ECCSTAT,
}

impl SFRAddress {
    /// The register's address in the chip's 12-bit address space.
    pub open spec fn spec_value(self) -> u16 {
        match self {
            SFRAddress::C1CON => 0x000,
            SFRAddress::C1NBTCFG => 0x004,
            SFRAddress::C1DBTCFG => 0x008,
            SFRAddress::C1TDC => 0x00C,
            SFRAddress::C1TBC => 0x010,
            SFRAddress::C1TSCON => 0x014,
            SFRAddress::C1VEC => 0x018,
            SFRAddress::C1INT => 0x01C,
            SFRAddress::C1RXIF => 0x020,
            SFRAddress::C1TXIF => 0x024,
            SFRAddress::C1RXOVIF => 0x028,
            SFRAddress::C1TXATIF => 0x02C,
            SFRAddress::C1TXREQ => 0x030,
            SFRAddress::C1TREC => 0x034,
            SFRAddress::C1BDIAG0 => 0x038,
            SFRAddress::C1BDIAG1 => 0x03C,
            SFRAddress::C1TEFCON => 0x040,
            SFRAddress::C1TEFSTA => 0x044,
            SFRAddress::C1TEFUA => 0x048,
            SFRAddress::C1TXQCON => 0x050,
            SFRAddress::C1TXQSTA => 0x054,
            SFRAddress::C1TXQUA => 0x058,
            SFRAddress::C1FIFOCON1 => 0x05C,
            SFRAddress::C1FIFOCON2 => 0x068,
            SFRAddress::C1FIFOCON3 => 0x074,
            SFRAddress::C1FIFOCON4 => 0x080,
            SFRAddress::C1FIFOCON5 => 0x08C,
            SFRAddress::C1FIFOCON6 => 0x098,
            SFRAddress::C1FIFOCON7 => 0x0A4,
            SFRAddress::C1FIFOCON8 => 0x0B0,
            SFRAddress::C1FIFOCON9 => 0x0BC,
            SFRAddress::C1FIFOCON10 => 0x0C8,
            SFRAddress::C1FIFOCON11 => 0x0D4,
            SFRAddress::C1FIFOCON12 => 0x0E0,
            SFRAddress::C1FIFOCON13 => 0x0EC,
            SFRAddress::C1FIFOCON14 => 0x0F8,
            SFRAddress::C1FIFOCON15 => 0x104,
            SFRAddress::C1FIFOCON16 => 0x110,
            SFRAddress::C1FIFOCON17 => 0x11C,
            SFRAddress::C1FIFOCON18 => 0x128,
            SFRAddress::C1FIFOCON19 => 0x134,
            SFRAddress::C1FIFOCON20 => 0x140,
            SFRAddress::C1FIFOCON21 => 0x14C,
            SFRAddress::C1FIFOCON22 => 0x158,
            SFRAddress::C1FIFOCON23 => 0x164,
            SFRAddress::C1FIFOCON24 => 0x170,
            SFRAddress::C1FIFOCON25 => 0x17C,
            SFRAddress::C1FIFOCON26 => 0x188,
            SFRAddress::C1FIFOCON27 => 0x194,
            SFRAddress::C1FIFOCON28 => 0x1A0,
            SFRAddress::C1FIFOCON29 => 0x1AC,
            SFRAddress::C1FIFOCON30 => 0x1B8,
            SFRAddress::C1FIFOCON31 => 0x1C4,
            SFRAddress::C1FIFOSTA1 => 0x060,
            SFRAddress::C1FIFOSTA2 => 0x06C,
            SFRAddress::C1FIFOSTA3 => 0x078,
            SFRAddress::C1FIFOSTA4 => 0x084,
            SFRAddress::C1FIFOSTA5 => 0x090,
            SFRAddress::C1FIFOSTA6 => 0x09C,
            SFRAddress::C1FIFOSTA7 => 0x0A8,
            SFRAddress::C1FIFOSTA8 => 0x0B4,
            SFRAddress::C1FIFOSTA9 => 0x0C0,
            SFRAddress::C1FIFOSTA10 => 0x0CC,
            SFRAddress::C1FIFOSTA11 => 0x0D8,
            SFRAddress::C1FIFOSTA12 => 0x0E4,
            SFRAddress::C1FIFOSTA13 => 0x0F0,
            SFRAddress::C1FIFOSTA14 => 0x0FC,
            SFRAddress::C1FIFOSTA15 => 0x108,
            SFRAddress::C1FIFOSTA16 => 0x114,
            SFRAddress::C1FIFOSTA17 => 0x120,
            SFRAddress::C1FIFOSTA18 => 0x12C,
            SFRAddress::C1FIFOSTA19 => 0x138,
            SFRAddress::C1FIFOSTA20 => 0x144,
            SFRAddress::C1FIFOSTA21 => 0x150,
            SFRAddress::C1FIFOSTA22 => 0x15C,
            SFRAddress::C1FIFOSTA23 => 0x168,
            SFRAddress::C1FIFOSTA24 => 0x174,
            SFRAddress::C1FIFOSTA25 => 0x180,
            SFRAddress::C1FIFOSTA26 => 0x18C,
            SFRAddress::C1FIFOSTA27 => 0x198,
            SFRAddress::C1FIFOSTA28 => 0x1A4,
            SFRAddress::C1FIFOSTA29 => 0x1B0,
            SFRAddress::C1FIFOSTA30 => 0x1BC,
            SFRAddress::C1FIFOSTA31 => 0x1C8,
            SFRAddress::C1FIFOUA1 => 0x064,
            SFRAddress::C1FIFOUA2 => 0x070,
            SFRAddress::C1FIFOUA3 => 0x07C,
            SFRAddress::C1FIFOUA4 => 0x088,
            SFRAddress::C1FIFOUA5 => 0x094,
            SFRAddress::C1FIFOUA6 => 0x0A0,
            SFRAddress::C1FIFOUA7 => 0x0AC,
            SFRAddress::C1FIFOUA8 => 0x0B8,
            SFRAddress::C1FIFOUA9 => 0x0C4,
            SFRAddress::C1FIFOUA10 => 0x0D0,
            SFRAddress::C1FIFOUA11 => 0x0DC,
            SFRAddress::C1FIFOUA12 => 0x0E8,
            SFRAddress::C1FIFOUA13 => 0x0F4,
            SFRAddress::C1FIFOUA14 => 0x100,
            SFRAddress::C1FIFOUA15 => 0x10C,
            SFRAddress::C1FIFOUA16 => 0x118,
            SFRAddress::C1FIFOUA17 => 0x124,
            SFRAddress::C1FIFOUA18 => 0x130,
            SFRAddress::C1FIFOUA19 => 0x13C,
            SFRAddress::C1FIFOUA20 => 0x148,
            SFRAddress::C1FIFOUA21 => 0x154,
            SFRAddress::C1FIFOUA22 => 0x160,
            SFRAddress::C1FIFOUA23 => 0x16C,
            SFRAddress::C1FIFOUA24 => 0x178,
            SFRAddress::C1FIFOUA25 => 0x184,
            SFRAddress::C1FIFOUA26 => 0x190,
            SFRAddress::C1FIFOUA27 => 0x19C,
            SFRAddress::C1FIFOUA28 => 0x1A8,
            SFRAddress::C1FIFOUA29 => 0x1B4,
            SFRAddress::C1FIFOUA30 => 0x1C0,
            SFRAddress::C1FIFOUA31 => 0x1CC,
            SFRAddress::OSC => 0xE00,
            SFRAddress::IOCON => 0xE04,
            SFRAddress::CRC => 0xE08,
            SFRAddress::ECCCON => 0xE0C,
            SFRAddress::ECCSTAT => 0xE10,
        }
    }

    /// The register's address in the chip's 12-bit address space.
    pub fn value(&self) -> (address: u16)
        ensures
            address == self.spec_value(),
            address <= 0xFFF,
            address % 4 == 0,
    {
        match self {
            SFRAddress::C1CON => 0x000,
            SFRAddress::C1NBTCFG => 0x004,
            SFRAddress::C1DBTCFG => 0x008,
            SFRAddress::C1TDC => 0x00C,
            SFRAddress::C1TBC => 0x010,
            SFRAddress::C1TSCON => 0x014,
            SFRAddress::C1VEC => 0x018,
            SFRAddress::C1INT => 0x01C,
            SFRAddress::C1RXIF => 0x020,
            SFRAddress::C1TXIF => 0x024,
            SFRAddress::C1RXOVIF => 0x028,
            SFRAddress::C1TXATIF => 0x02C,
            SFRAddress::C1TXREQ => 0x030,
            SFRAddress::C1TREC => 0x034,
            SFRAddress::C1BDIAG0 => 0x038,
            SFRAddress::C1BDIAG1 => 0x03C,
            SFRAddress::C1TEFCON => 0x040,
            SFRAddress::C1TEFSTA => 0x044,
            SFRAddress::C1TEFUA => 0x048,
            SFRAddress::C1TXQCON => 0x050,
            SFRAddress::C1TXQSTA => 0x054,
            SFRAddress::C1TXQUA => 0x058,
            SFRAddress::C1FIFOCON1 => 0x05C,
            SFRAddress::C1FIFOCON2 => 0x068,
            SFRAddress::C1FIFOCON3 => 0x074,
            SFRAddress::C1FIFOCON4 => 0x080,
            SFRAddress::C1FIFOCON5 => 0x08C,
            SFRAddress::C1FIFOCON6 => 0x098,
            SFRAddress::C1FIFOCON7 => 0x0A4,
            SFRAddress::C1FIFOCON8 => 0x0B0,
            SFRAddress::C1FIFOCON9 => 0x0BC,
            SFRAddress::C1FIFOCON10 => 0x0C8,
            SFRAddress::C1FIFOCON11 => 0x0D4,
            SFRAddress::C1FIFOCON12 => 0x0E0,
            SFRAddress::C1FIFOCON13 => 0x0EC,
            SFRAddress::C1FIFOCON14 => 0x0F8,
            SFRAddress::C1FIFOCON15 => 0x104,
            SFRAddress::C1FIFOCON16 => 0x110,
            SFRAddress::C1FIFOCON17 => 0x11C,
            SFRAddress::C1FIFOCON18 => 0x128,
            SFRAddress::C1FIFOCON19 => 0x134,
            SFRAddress::C1FIFOCON20 => 0x140,
            SFRAddress::C1FIFOCON21 => 0x14C,
            SFRAddress::C1FIFOCON22 => 0x158,
            SFRAddress::C1FIFOCON23 => 0x164,
            SFRAddress::C1FIFOCON24 => 0x170,
            SFRAddress::C1FIFOCON25 => 0x17C,
            SFRAddress::C1FIFOCON26 => 0x188,
            SFRAddress::C1FIFOCON27 => 0x194,
            SFRAddress::C1FIFOCON28 => 0x1A0,
            SFRAddress::C1FIFOCON29 => 0x1AC,
            SFRAddress::C1FIFOCON30 => 0x1B8,
            SFRAddress::C1FIFOCON31 => 0x1C4,
            SFRAddress::C1FIFOSTA1 => 0x060,
            SFRAddress::C1FIFOSTA2 => 0x06C,
            SFRAddress::C1FIFOSTA3 => 0x078,
            SFRAddress::C1FIFOSTA4 => 0x084,
            SFRAddress::C1FIFOSTA5 => 0x090,
            SFRAddress::C1FIFOSTA6 => 0x09C,
            SFRAddress::C1FIFOSTA7 => 0x0A8,
            SFRAddress::C1FIFOSTA8 => 0x0B4,
            SFRAddress::C1FIFOSTA9 => 0x0C0,
            SFRAddress::C1FIFOSTA10 => 0x0CC,
            SFRAddress::C1FIFOSTA11 => 0x0D8,
            SFRAddress::C1FIFOSTA12 => 0x0E4,
            SFRAddress::C1FIFOSTA13 => 0x0F0,
            SFRAddress::C1FIFOSTA14 => 0x0FC,
            SFRAddress::C1FIFOSTA15 => 0x108,
            SFRAddress::C1FIFOSTA16 => 0x114,
            SFRAddress::C1FIFOSTA17 => 0x120,
            SFRAddress::C1FIFOSTA18 => 0x12C,
            SFRAddress::C1FIFOSTA19 => 0x138,
            SFRAddress::C1FIFOSTA20 => 0x144,
            SFRAddress::C1FIFOSTA21 => 0x150,
            SFRAddress::C1FIFOSTA22 => 0x15C,
            SFRAddress::C1FIFOSTA23 => 0x168,
            SFRAddress::C1FIFOSTA24 => 0x174,
            SFRAddress::C1FIFOSTA25 => 0x180,
            SFRAddress::C1FIFOSTA26 => 0x18C,
            SFRAddress::C1FIFOSTA27 => 0x198,
            SFRAddress::C1FIFOSTA28 => 0x1A4,
            SFRAddress::C1FIFOSTA29 => 0x1B0,
            SFRAddress::C1FIFOSTA30 => 0x1BC,
            SFRAddress::C1FIFOSTA31 => 0x1C8,
            SFRAddress::C1FIFOUA1 => 0x064,
            SFRAddress::C1FIFOUA2 => 0x070,
            SFRAddress::C1FIFOUA3 => 0x07C,
            SFRAddress::C1FIFOUA4 => 0x088,
            SFRAddress::C1FIFOUA5 => 0x094,
            SFRAddress::C1FIFOUA6 => 0x0A0,
            SFRAddress::C1FIFOUA7 => 0x0AC,
            SFRAddress::C1FIFOUA8 => 0x0B8,
            SFRAddress::C1FIFOUA9 => 0x0C4,
            SFRAddress::C1FIFOUA10 => 0x0D0,
            SFRAddress::C1FIFOUA11 => 0x0DC,
            SFRAddress::C1FIFOUA12 => 0x0E8,
            SFRAddress::C1FIFOUA13 => 0x0F4,
            SFRAddress::C1FIFOUA14 => 0x100,
            SFRAddress::C1FIFOUA15 => 0x10C,
            SFRAddress::C1FIFOUA16 => 0x118,
            SFRAddress::C1FIFOUA17 => 0x124,
            SFRAddress::C1FIFOUA18 => 0x130,
            SFRAddress::C1FIFOUA19 => 0x13C,
            SFRAddress::C1FIFOUA20 => 0x148,
            SFRAddress::C1FIFOUA21 => 0x154,
            SFRAddress::C1FIFOUA22 => 0x160,
            SFRAddress::C1FIFOUA23 => 0x16C,
            SFRAddress::C1FIFOUA24 => 0x178,
            SFRAddress::C1FIFOUA25 => 0x184,
            SFRAddress::C1FIFOUA26 => 0x190,
            SFRAddress::C1FIFOUA27 => 0x19C,
            SFRAddress::C1FIFOUA28 => 0x1A8,
            SFRAddress::C1FIFOUA29 => 0x1B4,
            SFRAddress::C1FIFOUA30 => 0x1C0,
            SFRAddress::C1FIFOUA31 => 0x1CC,
            SFRAddress::OSC => 0xE00,
            SFRAddress::IOCON => 0xE04,
            SFRAddress::CRC => 0xE08,
            SFRAddress::ECCCON => 0xE0C,
            SFRAddress::ECCSTAT => 0xE10,
        }
    }
}

/// No two registers share an address.
pub proof fn lemma_addresses_distinct(a: SFRAddress, b: SFRAddress)
    requires
        a.spec_value() == b.spec_value(),
    ensures
        a == b,
{
}

/// A register type that knows where it lives: a 32-bit word read from, and written back to,
/// one fixed address.
pub trait Register: Sized {
    /// The address that values of this type are read from and written to.
    spec fn spec_address() -> SFRAddress;

    /// The 32-bit word that the value stands for.
    spec fn word(&self) -> u32;

    /// The address that values of this type are read from and written to.
    fn address() -> (address: SFRAddress)
        ensures
            address == Self::spec_address(),
    ;

    /// Wraps a word as read from the register.
    fn from_word(word: u32) -> (register: Self)
        ensures
            register.word() == word,
    ;

    /// The word to write to the register.
    fn into_word(self) -> (word: u32)
        ensures
            word == self.word(),
    ;
}

/// The oscillator control register.
#[derive(Clone, Copy, Debug, PartialEq, Eq)]
pub struct OSCRegister(pub u32);

impl OSCRegister {
    /// Bit 0: the PLL multiplies the clock by ten.
    pub fn pllen(&self) -> (value: bool)
        ensures
            value == flag(self.0, 0),
    {
        get_flag(self.0, 0)
    }

    /// Writes bit 0: the PLL multiplies the clock by ten.
    pub fn set_pllen(&mut self, value: bool)
        ensures
            final(self).0 == with_flag(old(self).0, 0, value),
    {
        self.0 = set_flag(self.0, 0, value);
    }

    /// Bit 2: the clock is switched off and the chip sleeps.
    pub fn oscdis(&self) -> (value: bool)
        ensures
            value == flag(self.0, 2),
    {
        get_flag(self.0, 2)
    }

    /// Writes bit 2: the clock is switched off and the chip sleeps.
    pub fn set_oscdis(&mut self, value: bool)
        ensures
            final(self).0 == with_flag(old(self).0, 2, value),
    {
        self.0 = set_flag(self.0, 2, value);
    }

    /// Bit 4: the system clock is divided by two.
    pub fn slckdiv(&self) -> (value: bool)
        ensures
            value == flag(self.0, 4),
    {
        get_flag(self.0, 4)
    }

    /// Writes bit 4: the system clock is divided by two.
    pub fn set_slckdiv(&mut self, value: bool)
        ensures
            final(self).0 == with_flag(old(self).0, 4, value),
    {
        self.0 = set_flag(self.0, 4, value);
    }

    /// Bits 6..=5: the divider of the clock output pin.
    pub fn clkodiv(&self) -> (value: u8)
        ensures
            value as u32 == field(self.0, 5, 2),
            value <= 3,
    {
        proof {
            lemma_field_bound(self.0, 5, 2);
        }
        get_field(self.0, 5, 2) as u8
    }

    /// Writes bits 6..=5, keeping the low 2 bits of `value`: the divider of the clock output pin.
    pub fn set_clkodiv(&mut self, value: u8)
        ensures
            final(self).0 == with_field(old(self).0, 5, 2, value as u32),
    {
        self.0 = set_field(self.0, 5, 2, value as u32);
    }

    /// Bit 8: the PLL has locked.
    pub fn pllrdy(&self) -> (value: bool)
        ensures
            value == flag(self.0, 8),
    {
        get_flag(self.0, 8)
    }

    /// Bit 10: the clock is running and stable.
    pub fn oscrdy(&self) -> (value: bool)
        ensures
            value == flag(self.0, 10),
    {
        get_flag(self.0, 10)
    }

    /// Bit 12: the system clock divider has taken effect.
    pub fn sclkrdy(&self) -> (value: bool)
        ensures
            value == flag(self.0, 12),
    {
        get_flag(self.0, 12)
    }

}

impl Register for OSCRegister {
    open spec fn spec_address() -> SFRAddress {
        SFRAddress::OSC
    }

    open spec fn word(&self) -> u32 {
        self.0
    }

    fn address() -> SFRAddress {
        SFRAddress::OSC
    }

    fn from_word(word: u32) -> Self {
        OSCRegister(word)
    }

    fn into_word(self) -> u32 {
        self.0
    }
}

impl From<OSCRegister> for u32 {
    fn from(register: OSCRegister) -> (word: u32) {
        register.0
    }
}

impl vstd::std_specs::convert::FromSpecImpl<OSCRegister> for u32 {
    open spec fn obeys_from_spec() -> bool {
        true
    }

    open spec fn from_spec(register: OSCRegister) -> u32 {
        register.0
    }
}

/// The input/output control register.
#[derive(Clone, Copy, Debug, PartialEq, Eq)]
pub struct IOCONRegister(pub u32);

impl IOCONRegister {
    /// Bit 0: pin GPIO0 is an input.
    pub fn tris0(&self) -> (value: bool)
        ensures
            value == flag(self.0, 0),
    {
        get_flag(self.0, 0)
    }

    /// Writes bit 0: pin GPIO0 is an input.
    pub fn set_tris0(&mut self, value: bool)
        ensures
            final(self).0 == with_flag(old(self).0, 0, value),
    {
        self.0 = set_flag(self.0, 0, value);
    }

    /// Bit 1: pin GPIO1 is an input.
    pub fn tris1(&self) -> (value: bool)
        ensures
            value == flag(self.0, 1),
    {
        get_flag(self.0, 1)
    }

    /// Writes bit 1: pin GPIO1 is an input.
    pub fn set_tris1(&mut self, value: bool)
        ensures
            final(self).0 == with_flag(old(self).0, 1, value),
    {
        self.0 = set_flag(self.0, 1, value);
    }

    /// Bit 6: the transceiver standby pin is driven.
    pub fn xstbyen(&self) -> (value: bool)
        ensures
            value == flag(self.0, 6),
    {
        get_flag(self.0, 6)
    }

    /// Writes bit 6: the transceiver standby pin is driven.
    pub fn set_xstbyen(&mut self, value: bool)
        ensures
            final(self).0 == with_flag(old(self).0, 6, value),
    {
        self.0 = set_flag(self.0, 6, value);
    }

    /// Bit 8: the latch of pin GPIO0.
    pub fn lat0(&self) -> (value: bool)
        ensures
            value == flag(self.0, 8),
    {
        get_flag(self.0, 8)
    }

    /// Writes bit 8: the latch of pin GPIO0.
    pub fn set_lat0(&mut self, value: bool)
        ensures
            final(self).0 == with_flag(old(self).0, 8, value),
    {
        self.0 = set_flag(self.0, 8, value);
    }

    /// Bit 9: the latch of pin GPIO1.
    pub fn lat1(&self) -> (value: bool)
        ensures
            value == flag(self.0, 9),
    {
        get_flag(self.0, 9)
    }

    /// Writes bit 9: the latch of pin GPIO1.
    pub fn set_lat1(&mut self, value: bool)
        ensures
            final(self).0 == with_flag(old(self).0, 9, value),
    {
        self.0 = set_flag(self.0, 9, value);
    }

    /// Bit 16: the level read on pin GPIO0.
    pub fn gpio0(&self) -> (value: bool)
        ensures
            value == flag(self.0, 16),
    {
        get_flag(self.0, 16)
    }

    /// Bit 17: the level read on pin GPIO1.
    pub fn gpio1(&self) -> (value: bool)
        ensures
            value == flag(self.0, 17),
    {
        get_flag(self.0, 17)
    }

    /// Bit 24: pin 0 is a general-purpose pin, not an interrupt pin.
    pub fn pm0(&self) -> (value: bool)
        ensures
            value == flag(self.0, 24),
    {
        get_flag(self.0, 24)
    }

    /// Writes bit 24: pin 0 is a general-purpose pin, not an interrupt pin.
    pub fn set_pm0(&mut self, value: bool)
        ensures
            final(self).0 == with_flag(old(self).0, 24, value),
    {
        self.0 = set_flag(self.0, 24, value);
    }

    /// Bit 25: pin 1 is a general-purpose pin, not an interrupt pin.
    pub fn pm1(&self) -> (value: bool)
        ensures
            value == flag(self.0, 25),
    {
        get_flag(self.0, 25)
    }

    /// Writes bit 25: pin 1 is a general-purpose pin, not an interrupt pin.
    pub fn set_pm1(&mut self, value: bool)
        ensures
            final(self).0 == with_flag(old(self).0, 25, value),
    {
        self.0 = set_flag(self.0, 25, value);
    }

    /// Bit 28: the transmit pin is open drain.
    pub fn txcanod(&self) -> (value: bool)
        ensures
            value == flag(self.0, 28),
    {
        get_flag(self.0, 28)
    }

    /// Writes bit 28: the transmit pin is open drain.
    pub fn set_txcanod(&mut self, value: bool)
        ensures
            final(self).0 == with_flag(old(self).0, 28, value),
    {
        self.0 = set_flag(self.0, 28, value);
    }

    /// Bit 29: the clock output pin signals start of frame.
    pub fn sof(&self) -> (value: bool)
        ensures
            value == flag(self.0, 29),
    {
        get_flag(self.0, 29)
    }

    /// Writes bit 29: the clock output pin signals start of frame.
    pub fn set_sof(&mut self, value: bool)
        ensures
            final(self).0 == with_flag(old(self).0, 29, value),
    {
        self.0 = set_flag(self.0, 29, value);
    }

    /// Bit 30: the interrupt pins are open drain.
    pub fn intod(&self) -> (value: bool)
        ensures
            value == flag(self.0, 30),
    {
        get_flag(self.0, 30)
    }

    /// Writes bit 30: the interrupt pins are open drain.
    pub fn set_intod(&mut self, value: bool)
        ensures
            final(self).0 == with_flag(old(self).0, 30, value),
    {
        self.0 = set_flag(self.0, 30, value);
    }

}

impl Register for IOCONRegister {
    open spec fn spec_address() -> SFRAddress {
        SFRAddress::IOCON
    }

    open spec fn word(&self) -> u32 {
        self.0
    }

    fn address() -> SFRAddress {
        SFRAddress::IOCON
    }

    fn from_word(word: u32) -> Self {
        IOCONRegister(word)
    }

    fn into_word(self) -> u32 {
        self.0
    }
}

impl From<IOCONRegister> for u32 {
    fn from(register: IOCONRegister) -> (word: u32) {
        register.0
    }
}

impl vstd::std_specs::convert::FromSpecImpl<IOCONRegister> for u32 {
    open spec fn obeys_from_spec() -> bool {
        true
    }

    open spec fn from_spec(register: IOCONRegister) -> u32 {
        register.0
    }
}

/// What a bus transaction asks of the chip.
#[derive(Clone, Copy, Debug, PartialEq, Eq, Structural)]
pub enum OpCode {
    /// Reset the chip's registers and enter configuration mode.
    Reset,
    /// Read registers or RAM, starting at the address given.
    Read,
    /// Write registers or RAM, starting at the address given.
    Write,
    /// Read registers only. This chip family keeps registers and RAM in one address space, so
    /// the operation carries the code of `Read`.
    ReadSfr,
    /// Write registers only. It carries the code of `Write`, for the same reason.
    WriteSfr,
}

impl OpCode {
    /// The four-bit code of the operation.
    pub open spec fn spec_code(self) -> u16 {
        match self {
            OpCode::Reset => 0b0000,
            OpCode::Read => 0b0011,
            OpCode::Write => 0b0010,
            OpCode::ReadSfr => 0b0011,
            OpCode::WriteSfr => 0b0010,
        }
    }

    /// The four-bit code of the operation.
    pub fn code(&self) -> (code: u16)
        ensures
            code == self.spec_code(),
    {
        match self {
            OpCode::Reset => 0b0000,
            OpCode::Read => 0b0011,
            OpCode::Write => 0b0010,
            OpCode::ReadSfr => 0b0011,
            OpCode::WriteSfr => 0b0010,
        }
    }
}

/// The instruction word for an operation at an address: the code in bits 15..=12 and the low
/// twelve bits of the address below it.
pub open spec fn instruction_word(op: OpCode, address: u16) -> u16 {
    (op.spec_code() << 12) | (address & 0x0FFF)
}

/// The two bytes that carry an instruction word on the bus: the high byte first.
pub open spec fn instruction_bytes(word: u16) -> Seq<u8> {
    seq![(word >> 8) as u8, (word & 0xFF) as u8]
}

/// The 16-bit word that opens every transaction.
#[derive(Clone, Copy, Debug, PartialEq, Eq)]
pub struct Instruction(pub u16);

impl Instruction {
    /// The instruction for `op` at address zero.
    pub fn new(op: OpCode) -> (instruction: Self)
        ensures
            instruction.0 == instruction_word(op, 0),
    {
        let code = op.code();
        assert((code << 12) | (0u16 & 0x0FFF) == code << 12) by (bit_vector);
        Instruction(code << 12)
    }

    /// The operation bits, 15..=12.
    pub fn opcode(&self) -> (code: u16)
        ensures
            code == self.0 >> 12,
            code <= 0xF,
    {
        let word = self.0;
        assert(word >> 12 <= 0xF) by (bit_vector);
        word >> 12
    }

    /// The address bits, 11..=0.
    pub fn address(&self) -> (address: u16)
        ensures
            address == self.0 & 0x0FFF,
            address <= 0xFFF,
    {
        let word = self.0;
        assert(word & 0x0FFF <= 0xFFF) by (bit_vector);
        word & 0x0FFF
    }

    /// Replaces the address bits by the low twelve bits of `address`; the operation stays.
    pub fn set_address(&mut self, address: u16)
        ensures
            final(self).0 == (old(self).0 & 0xF000) | (address & 0x0FFF),
    {
        self.0 = (self.0 & 0xF000) | (address & 0x0FFF);
    }

    /// The instruction as it goes over the bus: two bytes, the high byte first.
    pub fn to_spi_data(&self) -> (data: [u8; 2])
        ensures
            data@ == instruction_bytes(self.0),
    {
        let word = self.0;
        assert(word >> 8 <= 0xFF) by (bit_vector);
        assert(word & 0xFF <= 0xFF) by (bit_vector);
        let data = [(word >> 8) as u8, (word & 0xFF) as u8];
        assert(data@ =~= instruction_bytes(word));
        data
    }
}

/// The instruction for an operation at an address, ready to send.
pub fn encode_instruction(op: OpCode, address: u16) -> (data: [u8; 2])
    ensures
        data@ == instruction_bytes(instruction_word(op, address)),
{
    let mut instruction = Instruction::new(op);
    instruction.set_address(address);
    proof {
        let code = op.spec_code();
        assert((((code << 12) | (0u16 & 0x0FFF)) & 0xF000) | (address & 0x0FFF) == (code << 12) | (
            address & 0x0FFF))
            by (bit_vector)
            requires
                code <= 3,
        ;
    }
    instruction.to_spi_data()
}

} // verus!
