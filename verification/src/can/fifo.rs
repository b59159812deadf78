//! The registers of the 31 configurable FIFOs and where each of them lives.
use crate::bits::{field, flag, get_field, get_flag, lemma_field_bound, set_field, set_flag, with_field, with_flag};
use crate::generic::SFRAddress;
use vstd::prelude::*;

verus! {

/// The direction of a FIFO.
#[derive(Clone, Copy, Debug, PartialEq, Eq, Structural)]
pub enum Mode {
    /// The FIFO holds messages to send.
    Transmit,
    /// The FIFO holds messages that were received.
    Receive,
}

/// The control register of a FIFO.
#[derive(Clone, Copy, Debug, PartialEq, Eq)]
pub struct ControlRegister(pub u32);

impl ControlRegister {
    /// Bit 0: interrupt when the FIFO is not full (transmit) or not empty (receive).
    pub fn tfnrfnie(&self) -> (value: bool)
        ensures
            value == flag(self.0, 0),
    {
        get_flag(self.0, 0)
    }

    /// Writes bit 0: interrupt when the FIFO is not full (transmit) or not empty (receive).
    pub fn set_tfnrnfie(&mut self, value: bool)
        ensures
            final(self).0 == with_flag(old(self).0, 0, value),
    {
        self.0 = set_flag(self.0, 0, value);
    }

    /// Bit 1: interrupt when the FIFO is half empty (transmit) or half full (receive).
    pub fn tfhrfhie(&self) -> (value: bool)
        ensures
            value == flag(self.0, 1),
    {
        get_flag(self.0, 1)
    }

    /// Writes bit 1: interrupt when the FIFO is half empty (transmit) or half full (receive).
    pub fn set_tfhrfhie(&mut self, value: bool)
        ensures
            final(self).0 == with_flag(old(self).0, 1, value),
    {
        self.0 = set_flag(self.0, 1, value);
    }

    /// Bit 2: interrupt when the FIFO is empty (transmit) or full (receive).
    pub fn tfhrffie(&self) -> (value: bool)
        ensures
            value == flag(self.0, 2),
    {
        get_flag(self.0, 2)
    }

    /// Writes bit 2: interrupt when the FIFO is empty (transmit) or full (receive).
    pub fn set_tfhrffie(&mut self, value: bool)
        ensures
            final(self).0 == with_flag(old(self).0, 2, value),
    {
        self.0 = set_flag(self.0, 2, value);
    }

    /// Bit 3: interrupt on receive overflow.
    pub fn rxovie(&self) -> (value: bool)
        ensures
            value == flag(self.0, 3),
    {
        get_flag(self.0, 3)
    }

    /// Writes bit 3: interrupt on receive overflow.
    pub fn set_rxovie(&mut self, value: bool)
        ensures
            final(self).0 == with_flag(old(self).0, 3, value),
    {
        self.0 = set_flag(self.0, 3, value);
    }

    /// Bit 4: interrupt when the transmit attempts are used up.
    pub fn txatie(&self) -> (value: bool)
        ensures
            value == flag(self.0, 4),
    {
        get_flag(self.0, 4)
    }

    /// Writes bit 4: interrupt when the transmit attempts are used up.
    pub fn set_txatie(&mut self, value: bool)
        ensures
            final(self).0 == with_flag(old(self).0, 4, value),
    {
        self.0 = set_flag(self.0, 4, value);
    }

    /// Bit 5: received messages carry a time stamp.
    pub fn rxtsen(&self) -> (value: bool)
        ensures
            value == flag(self.0, 5),
    {
        get_flag(self.0, 5)
    }

    /// Writes bit 5: received messages carry a time stamp.
    pub fn set_rxtsen(&mut self, value: bool)
        ensures
            final(self).0 == with_flag(old(self).0, 5, value),
    {
        self.0 = set_flag(self.0, 5, value);
    }

    /// Bit 6: a remote request triggers transmission.
    pub fn rtren(&self) -> (value: bool)
        ensures
            value == flag(self.0, 6),
    {
        get_flag(self.0, 6)
    }

    /// Writes bit 6: a remote request triggers transmission.
    pub fn set_rtren(&mut self, value: bool)
        ensures
            final(self).0 == with_flag(old(self).0, 6, value),
    {
        self.0 = set_flag(self.0, 6, value);
    }

    /// Bit 7: the FIFO transmits; clear, it receives.
    pub fn txen(&self) -> (value: bool)
        ensures
            value == flag(self.0, 7),
    {
        get_flag(self.0, 7)
    }

    /// Writes bit 7: the FIFO transmits; clear, it receives.
    pub fn set_txen(&mut self, value: bool)
        ensures
            final(self).0 == with_flag(old(self).0, 7, value),
    {
        self.0 = set_flag(self.0, 7, value);
    }

    /// Bit 8: the FIFO head or tail moves on by one message.
    pub fn uinc(&self) -> (value: bool)
        ensures
            value == flag(self.0, 8),
    {
        get_flag(self.0, 8)
    }

    /// Writes bit 8: the FIFO head or tail moves on by one message.
    pub fn set_uinc(&mut self, value: bool)
        ensures
            final(self).0 == with_flag(old(self).0, 8, value),
    {
        self.0 = set_flag(self.0, 8, value);
    }

    /// Bit 9: the queued messages are to be sent.
    pub fn txreq(&self) -> (value: bool)
        ensures
            value == flag(self.0, 9),
    {
        get_flag(self.0, 9)
    }

    /// Writes bit 9: the queued messages are to be sent.
    pub fn set_txreq(&mut self, value: bool)
        ensures
            final(self).0 == with_flag(old(self).0, 9, value),
    {
        self.0 = set_flag(self.0, 9, value);
    }

    /// Bit 10: the FIFO is to be reset.
    pub fn freset(&self) -> (value: bool)
        ensures
            value == flag(self.0, 10),
    {
        get_flag(self.0, 10)
    }

    /// Writes bit 10: the FIFO is to be reset.
    pub fn set_freset(&mut self, value: bool)
        ensures
            final(self).0 == with_flag(old(self).0, 10, value),
    {
        self.0 = set_flag(self.0, 10, value);
    }

    /// Bits 20..=16: the transmit priority, 0 lowest and 31 highest.
    pub fn txpri(&self) -> (value: u8)
        ensures
            value as u32 == field(self.0, 16, 5),
            value <= 31,
    {
        proof {
            lemma_field_bound(self.0, 16, 5);
        }
        get_field(self.0, 16, 5) as u8
    }

    /// Writes bits 20..=16, keeping the low 5 bits of `value`: the transmit priority, 0 lowest and 31 highest.
    pub fn set_txpri(&mut self, value: u8)
        ensures
            final(self).0 == with_field(old(self).0, 16, 5, value as u32),
    {
        self.0 = set_field(self.0, 16, 5, value as u32);
    }

    /// Bits 22..=21: the code of the retransmission attempts.
    pub fn txat(&self) -> (value: u8)
        ensures
            value as u32 == field(self.0, 21, 2),
            value <= 3,
    {
        proof {
            lemma_field_bound(self.0, 21, 2);
        }
        get_field(self.0, 21, 2) as u8
    }

    /// Writes bits 22..=21, keeping the low 2 bits of `value`: the code of the retransmission attempts.
    pub fn set_txat(&mut self, value: u8)
        ensures
            final(self).0 == with_field(old(self).0, 21, 2, value as u32),
    {
        self.0 = set_field(self.0, 21, 2, value as u32);
    }

    /// Bits 28..=24: the number of message objects, less one.
    pub fn fsize(&self) -> (value: u8)
        ensures
            value as u32 == field(self.0, 24, 5),
            value <= 31,
    {
        proof {
            lemma_field_bound(self.0, 24, 5);
        }
        get_field(self.0, 24, 5) as u8
    }

    /// Writes bits 28..=24, keeping the low 5 bits of `value`: the number of message objects, less one.
    pub fn set_fsize(&mut self, value: u8)
        ensures
            final(self).0 == with_field(old(self).0, 24, 5, value as u32),
    {
        self.0 = set_field(self.0, 24, 5, value as u32);
    }

    /// Bits 31..=29: the code of the payload size.
    pub fn plsize(&self) -> (value: u8)
        ensures
            value as u32 == field(self.0, 29, 3),
            value <= 7,
    {
        proof {
            lemma_field_bound(self.0, 29, 3);
        }
        get_field(self.0, 29, 3) as u8
    }

    /// Writes bits 31..=29, keeping the low 3 bits of `value`: the code of the payload size.
    pub fn set_plsize(&mut self, value: u8)
        ensures
            final(self).0 == with_field(old(self).0, 29, 3, value as u32),
    {
        self.0 = set_field(self.0, 29, 3, value as u32);
    }

}

impl From<ControlRegister> for u32 {
    fn from(register: ControlRegister) -> (word: u32) {
        register.0
    }
}

impl vstd::std_specs::convert::FromSpecImpl<ControlRegister> for u32 {
    open spec fn obeys_from_spec() -> bool {
        true
    }

    open spec fn from_spec(register: ControlRegister) -> u32 {
        register.0
    }
}

/// The status register of a FIFO.
#[derive(Clone, Copy, Debug, PartialEq, Eq)]
pub struct StatusRegister(pub u32);

impl StatusRegister {
    /// Bit 0: the FIFO is not full (transmit) or not empty (receive).
    pub fn tfnrfnif(&self) -> (value: bool)
        ensures
            value == flag(self.0, 0),
    {
        get_flag(self.0, 0)
    }

    /// Writes bit 0: the FIFO is not full (transmit) or not empty (receive).
    pub fn set_tfnrfnif(&mut self, value: bool)
        ensures
            final(self).0 == with_flag(old(self).0, 0, value),
    {
        self.0 = set_flag(self.0, 0, value);
    }

    /// Bit 1: the FIFO is at most half full (transmit) or at least half full (receive).
    pub fn tfhrfhif(&self) -> (value: bool)
        ensures
            value == flag(self.0, 1),
    {
        get_flag(self.0, 1)
    }

    /// Writes bit 1: the FIFO is at most half full (transmit) or at least half full (receive).
    pub fn set_tfhrfhif(&mut self, value: bool)
        ensures
            final(self).0 == with_flag(old(self).0, 1, value),
    {
        self.0 = set_flag(self.0, 1, value);
    }

    /// Bit 2: the FIFO is empty (transmit) or full (receive).
    pub fn tferffif(&self) -> (value: bool)
        ensures
            value == flag(self.0, 2),
    {
        get_flag(self.0, 2)
    }

    /// Writes bit 2: the FIFO is empty (transmit) or full (receive).
    pub fn set_tferffif(&mut self, value: bool)
        ensures
            final(self).0 == with_flag(old(self).0, 2, value),
    {
        self.0 = set_flag(self.0, 2, value);
    }

    /// Bit 3: a received message was lost to overflow.
    pub fn rxovif(&self) -> (value: bool)
        ensures
            value == flag(self.0, 3),
    {
        get_flag(self.0, 3)
    }

    /// Writes bit 3: a received message was lost to overflow.
    pub fn set_rxovif(&mut self, value: bool)
        ensures
            final(self).0 == with_flag(old(self).0, 3, value),
    {
        self.0 = set_flag(self.0, 3, value);
    }

    /// Bit 4: the transmit attempts are used up.
    pub fn txatif(&self) -> (value: bool)
        ensures
            value == flag(self.0, 4),
    {
        get_flag(self.0, 4)
    }

    /// Writes bit 4: the transmit attempts are used up.
    pub fn set_txatif(&mut self, value: bool)
        ensures
            final(self).0 == with_flag(old(self).0, 4, value),
    {
        self.0 = set_flag(self.0, 4, value);
    }

    /// Bit 5: a bus error occurred during transmission.
    pub fn txerr(&self) -> (value: bool)
        ensures
            value == flag(self.0, 5),
    {
        get_flag(self.0, 5)
    }

    /// Writes bit 5: a bus error occurred during transmission.
    pub fn set_txerr(&mut self, value: bool)
        ensures
            final(self).0 == with_flag(old(self).0, 5, value),
    {
        self.0 = set_flag(self.0, 5, value);
    }

    /// Bit 6: a message lost arbitration.
    pub fn txlarb(&self) -> (value: bool)
        ensures
            value == flag(self.0, 6),
    {
        get_flag(self.0, 6)
    }

    /// Writes bit 6: a message lost arbitration.
    pub fn set_txlarb(&mut self, value: bool)
        ensures
            final(self).0 == with_flag(old(self).0, 6, value),
    {
        self.0 = set_flag(self.0, 6, value);
    }

    /// Bit 7: a message was aborted.
    pub fn txabt(&self) -> (value: bool)
        ensures
            value == flag(self.0, 7),
    {
        get_flag(self.0, 7)
    }

    /// Writes bit 7: a message was aborted.
    pub fn set_txabt(&mut self, value: bool)
        ensures
            final(self).0 == with_flag(old(self).0, 7, value),
    {
        self.0 = set_flag(self.0, 7, value);
    }

    /// Bits 12..=8: the index of the message that is sent or read next.
    pub fn fifoci(&self) -> (value: u8)
        ensures
            value as u32 == field(self.0, 8, 5),
            value <= 31,
    {
        proof {
            lemma_field_bound(self.0, 8, 5);
        }
        get_field(self.0, 8, 5) as u8
    }

}

impl From<StatusRegister> for u32 {
    fn from(register: StatusRegister) -> (word: u32) {
        register.0
    }
}

impl vstd::std_specs::convert::FromSpecImpl<StatusRegister> for u32 {
    open spec fn obeys_from_spec() -> bool {
        true
    }

    open spec fn from_spec(register: StatusRegister) -> u32 {
        register.0
    }
}

/// The user address register of a FIFO.
#[derive(Clone, Copy, Debug, PartialEq, Eq)]
pub struct UserAddressRegister(pub u32);

impl UserAddressRegister {
    /// Bits 31..=0: the RAM address of the next message object.
    pub fn fifoua(&self) -> (value: u32)
        ensures
            value == field(self.0, 0, 32),
    {
        get_field(self.0, 0, 32)
    }

    /// Writes bits 31..=0, keeping the low 32 bits of `value`: the RAM address of the next message object.
    pub fn set_fifoua(&mut self, value: u32)
        ensures
            final(self).0 == with_field(old(self).0, 0, 32, value),
    {
        self.0 = set_field(self.0, 0, 32, value);
    }

}

impl From<UserAddressRegister> for u32 {
    fn from(register: UserAddressRegister) -> (word: u32) {
        register.0
    }
}

impl vstd::std_specs::convert::FromSpecImpl<UserAddressRegister> for u32 {
    open spec fn obeys_from_spec() -> bool {
        true
    }

    open spec fn from_spec(register: UserAddressRegister) -> u32 {
        register.0
    }
}

/// The numbers that name a FIFO: 1 to 31. Number 0 is the transmit queue, which has registers
/// of its own.
pub open spec fn is_fifo_number(fifo_number: u8) -> bool {
    1 <= fifo_number <= 31
}

/// Where the control register of FIFO `fifo_number` lives: the three registers of a FIFO
/// follow each other, and the FIFOs follow each other twelve bytes apart.
pub open spec fn fifo_control_value(fifo_number: u8) -> int {
    0x05C + 12 * (fifo_number - 1)
}

/// Where the status register of FIFO `fifo_number` lives.
pub open spec fn fifo_status_value(fifo_number: u8) -> int {
    0x060 + 12 * (fifo_number - 1)
}

/// Where the user address register of FIFO `fifo_number` lives.
pub open spec fn fifo_user_address_value(fifo_number: u8) -> int {
    0x064 + 12 * (fifo_number - 1)
}

/// The address of the control register of FIFO `fifo_number`, for the numbers 1 to 31; any
/// other number comes back as the error.
pub fn get_fifo_control_address(fifo_number: u8) -> (result: Result<SFRAddress, u8>)
    ensures
        is_fifo_number(fifo_number) ==> result is Ok && result->Ok_0.spec_value() == fifo_control_value(
            fifo_number,
        ),
        !is_fifo_number(fifo_number) ==> result == Err::<SFRAddress, u8>(fifo_number),
{
    match fifo_number {
        1 => Ok(SFRAddress::C1FIFOCON1),
        2 => Ok(SFRAddress::C1FIFOCON2),
        3 => Ok(SFRAddress::C1FIFOCON3),
        4 => Ok(SFRAddress::C1FIFOCON4),
        5 => Ok(SFRAddress::C1FIFOCON5),
        6 => Ok(SFRAddress::C1FIFOCON6),
        7 => Ok(SFRAddress::C1FIFOCON7),
        8 => Ok(SFRAddress::C1FIFOCON8),
        9 => Ok(SFRAddress::C1FIFOCON9),
        10 => Ok(SFRAddress::C1FIFOCON10),
        11 => Ok(SFRAddress::C1FIFOCON11),
        12 => Ok(SFRAddress::C1FIFOCON12),
        13 => Ok(SFRAddress::C1FIFOCON13),
        14 => Ok(SFRAddress::C1FIFOCON14),
        15 => Ok(SFRAddress::C1FIFOCON15),
        16 => Ok(SFRAddress::C1FIFOCON16),
        17 => Ok(SFRAddress::C1FIFOCON17),
        18 => Ok(SFRAddress::C1FIFOCON18),
        19 => Ok(SFRAddress::C1FIFOCON19),
        20 => Ok(SFRAddress::C1FIFOCON20),
        21 => Ok(SFRAddress::C1FIFOCON21),
        22 => Ok(SFRAddress::C1FIFOCON22),
        23 => Ok(SFRAddress::C1FIFOCON23),
        24 => Ok(SFRAddress::C1FIFOCON24),
        25 => Ok(SFRAddress::C1FIFOCON25),
        26 => Ok(SFRAddress::C1FIFOCON26),
        27 => Ok(SFRAddress::C1FIFOCON27),
        28 => Ok(SFRAddress::C1FIFOCON28),
        29 => Ok(SFRAddress::C1FIFOCON29),
        30 => Ok(SFRAddress::C1FIFOCON30),
        31 => Ok(SFRAddress::C1FIFOCON31),
        _ => Err(fifo_number),
    }
}

/// The address of the status register of FIFO `fifo_number`, for the numbers 1 to 31; any
/// other number comes back as the error.
pub fn get_fifo_status_address(fifo_number: u8) -> (result: Result<SFRAddress, u8>)
    ensures
        is_fifo_number(fifo_number) ==> result is Ok && result->Ok_0.spec_value() == fifo_status_value(
            fifo_number,
        ),
        !is_fifo_number(fifo_number) ==> result == Err::<SFRAddress, u8>(fifo_number),
{
    match fifo_number {
        1 => Ok(SFRAddress::C1FIFOSTA1),
        2 => Ok(SFRAddress::C1FIFOSTA2),
        3 => Ok(SFRAddress::C1FIFOSTA3),
        4 => Ok(SFRAddress::C1FIFOSTA4),
        5 => Ok(SFRAddress::C1FIFOSTA5),
        6 => Ok(SFRAddress::C1FIFOSTA6),
        7 => Ok(SFRAddress::C1FIFOSTA7),
        8 => Ok(SFRAddress::C1FIFOSTA8),
        9 => Ok(SFRAddress::C1FIFOSTA9),
        10 => Ok(SFRAddress::C1FIFOSTA10),
        11 => Ok(SFRAddress::C1FIFOSTA11),
        12 => Ok(SFRAddress::C1FIFOSTA12),
        13 => Ok(SFRAddress::C1FIFOSTA13),
        14 => Ok(SFRAddress::C1FIFOSTA14),
        15 => Ok(SFRAddress::C1FIFOSTA15),
        16 => Ok(SFRAddress::C1FIFOSTA16),
        17 => Ok(SFRAddress::C1FIFOSTA17),
        18 => Ok(SFRAddress::C1FIFOSTA18),
        19 => Ok(SFRAddress::C1FIFOSTA19),
        20 => Ok(SFRAddress::C1FIFOSTA20),
        21 => Ok(SFRAddress::C1FIFOSTA21),
        22 => Ok(SFRAddress::C1FIFOSTA22),
        23 => Ok(SFRAddress::C1FIFOSTA23),
        24 => Ok(SFRAddress::C1FIFOSTA24),
        25 => Ok(SFRAddress::C1FIFOSTA25),
        26 => Ok(SFRAddress::C1FIFOSTA26),
        27 => Ok(SFRAddress::C1FIFOSTA27),
        28 => Ok(SFRAddress::C1FIFOSTA28),
        29 => Ok(SFRAddress::C1FIFOSTA29),
        30 => Ok(SFRAddress::C1FIFOSTA30),
        31 => Ok(SFRAddress::C1FIFOSTA31),
        _ => Err(fifo_number),
    }
}

/// The address of the user address register of FIFO `fifo_number`, for the numbers 1 to 31; any
/// other number comes back as the error.
pub fn get_fifo_user_address(fifo_number: u8) -> (result: Result<SFRAddress, u8>)
    ensures
        is_fifo_number(fifo_number) ==> result is Ok && result->Ok_0.spec_value() == fifo_user_address_value(
            fifo_number,
        ),
        !is_fifo_number(fifo_number) ==> result == Err::<SFRAddress, u8>(fifo_number),
{
    match fifo_number {
        1 => Ok(SFRAddress::C1FIFOUA1),
        2 => Ok(SFRAddress::C1FIFOUA2),
        3 => Ok(SFRAddress::C1FIFOUA3),
        4 => Ok(SFRAddress::C1FIFOUA4),
        5 => Ok(SFRAddress::C1FIFOUA5),
        6 => Ok(SFRAddress::C1FIFOUA6),
        7 => Ok(SFRAddress::C1FIFOUA7),
        8 => Ok(SFRAddress::C1FIFOUA8),
        9 => Ok(SFRAddress::C1FIFOUA9),
        10 => Ok(SFRAddress::C1FIFOUA10),
        11 => Ok(SFRAddress::C1FIFOUA11),
        12 => Ok(SFRAddress::C1FIFOUA12),
        13 => Ok(SFRAddress::C1FIFOUA13),
        14 => Ok(SFRAddress::C1FIFOUA14),
        15 => Ok(SFRAddress::C1FIFOUA15),
        16 => Ok(SFRAddress::C1FIFOUA16),
        17 => Ok(SFRAddress::C1FIFOUA17),
        18 => Ok(SFRAddress::C1FIFOUA18),
        19 => Ok(SFRAddress::C1FIFOUA19),
        20 => Ok(SFRAddress::C1FIFOUA20),
        21 => Ok(SFRAddress::C1FIFOUA21),
        22 => Ok(SFRAddress::C1FIFOUA22),
        23 => Ok(SFRAddress::C1FIFOUA23),
        24 => Ok(SFRAddress::C1FIFOUA24),
        25 => Ok(SFRAddress::C1FIFOUA25),
        26 => Ok(SFRAddress::C1FIFOUA26),
        27 => Ok(SFRAddress::C1FIFOUA27),
        28 => Ok(SFRAddress::C1FIFOUA28),
        29 => Ok(SFRAddress::C1FIFOUA29),
        30 => Ok(SFRAddress::C1FIFOUA30),
        31 => Ok(SFRAddress::C1FIFOUA31),
        _ => Err(fifo_number),
    }
}

/// The registers of the FIFOs all lie at different addresses: the control, status and user
/// address registers of any two FIFOs never coincide, and two FIFOs never share a register of
/// one kind.
pub proof fn lemma_fifo_addresses_distinct(n: u8, m: u8)
    requires
        is_fifo_number(n),
        is_fifo_number(m),
    ensures
        fifo_control_value(n) != fifo_status_value(m),
        fifo_control_value(n) != fifo_user_address_value(m),
        fifo_status_value(n) != fifo_user_address_value(m),
        n != m ==> fifo_control_value(n) != fifo_control_value(m),
        n != m ==> fifo_status_value(n) != fifo_status_value(m),
        n != m ==> fifo_user_address_value(n) != fifo_user_address_value(m),
{
}

/// The lookups of one FIFO, or of two, never hand out the same register twice: a control
/// register is never a status register, and different FIFOs have different registers.
pub proof fn lemma_fifo_lookups_distinct(
    n: u8,
    m: u8,
    control_n: SFRAddress,
    status_m: SFRAddress,
    control_m: SFRAddress,
    status_n: SFRAddress,
)
    requires
        is_fifo_number(n),
        is_fifo_number(m),
        control_n.spec_value() == fifo_control_value(n),
        control_m.spec_value() == fifo_control_value(m),
        status_n.spec_value() == fifo_status_value(n),
        status_m.spec_value() == fifo_status_value(m),
    ensures
        control_n != status_m,
        n != m ==> control_n != control_m,
        n != m ==> status_n != status_m,
{
    lemma_fifo_addresses_distinct(n, m);
}

} // verus!
