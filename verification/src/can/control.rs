//! The CAN control register and the transmit queue control register, with the symbolic
//! values of their enumerated fields.
use crate::bits::{
    field, flag, get_field, get_flag, lemma_field_bound, lemma_field_of_with_field,
    set_field, set_flag, with_field, with_flag,
};
use crate::generic::{Register, SFRAddress};
use vstd::prelude::*;

verus! {

/// A number read from an enumerated field that names no variant of it.
#[derive(Clone, Copy, Debug, PartialEq, Eq, Structural)]
pub struct InvalidCode {
    /// The number as read.
    pub number: u8,
}

/// A queue depth that the hardware cannot hold: zero objects.
#[derive(Clone, Copy, Debug, PartialEq, Eq, Structural)]
pub struct InvalidFifoSize(pub u8);

/// The operating modes of the CAN module.
#[derive(Clone, Copy, Debug, PartialEq, Eq, Structural)]
pub enum OperationMode {
    /// Normal operation, CAN FD frames allowed.
    NormalCanFD,
    /// Sleep mode.
    Sleep,
    /// Frames loop back inside the chip.
    InternalLoopback,
    /// The chip listens and never transmits.
    ListenOnly,
    /// Registers may be programmed; no bus traffic.
    Configuration,
    /// Frames loop back through the transceiver.
    ExternalLoopback,
    /// Normal operation, classic CAN 2.0 frames only.
    NormalCan2,
    /// Restricted operation.
    Restricted,
    /// What a code that names no mode reads as.
    Unknown,
}

impl OperationMode {
    /// The number that stands for the variant in a register.
    pub open spec fn spec_code(self) -> u8 {
        match self {
            OperationMode::NormalCanFD => 0,
            OperationMode::Sleep => 1,
            OperationMode::InternalLoopback => 2,
            OperationMode::ListenOnly => 3,
            OperationMode::Configuration => 4,
            OperationMode::ExternalLoopback => 5,
            OperationMode::NormalCan2 => 6,
            OperationMode::Restricted => 7,
            OperationMode::Unknown => 0xff,
        }
    }

    /// The variant that a number stands for, if it stands for one.
    pub open spec fn spec_from_code(code: u8) -> Option<OperationMode> {
        if code == 0 {
            Some(OperationMode::NormalCanFD)
        } else if code == 1 {
            Some(OperationMode::Sleep)
        } else if code == 2 {
            Some(OperationMode::InternalLoopback)
        } else if code == 3 {
            Some(OperationMode::ListenOnly)
        } else if code == 4 {
            Some(OperationMode::Configuration)
        } else if code == 5 {
            Some(OperationMode::ExternalLoopback)
        } else if code == 6 {
            Some(OperationMode::NormalCan2)
        } else if code == 7 {
            Some(OperationMode::Restricted)
        } else if code == 0xff {
            Some(OperationMode::Unknown)
        } else {
            None
        }
    }

    /// The number that stands for the variant in a register.
    pub fn code(&self) -> (code: u8)
        ensures
            code == self.spec_code(),
    {
        match self {
            OperationMode::NormalCanFD => 0,
            OperationMode::Sleep => 1,
            OperationMode::InternalLoopback => 2,
            OperationMode::ListenOnly => 3,
            OperationMode::Configuration => 4,
            OperationMode::ExternalLoopback => 5,
            OperationMode::NormalCan2 => 6,
            OperationMode::Restricted => 7,
            OperationMode::Unknown => 0xff,
        }
    }

    /// The variant that `number` stands for; a number that stands for none comes back in the
    /// error.
    pub fn try_from_primitive(number: u8) -> (result: Result<OperationMode, InvalidCode>)
        ensures
            result == match OperationMode::spec_from_code(number) {
                Some(variant) => Ok::<OperationMode, InvalidCode>(variant),
                None => Err::<OperationMode, InvalidCode>(InvalidCode { number }),
            },
    {
        match number {
            0 => Ok(OperationMode::NormalCanFD),
            1 => Ok(OperationMode::Sleep),
            2 => Ok(OperationMode::InternalLoopback),
            3 => Ok(OperationMode::ListenOnly),
            4 => Ok(OperationMode::Configuration),
            5 => Ok(OperationMode::ExternalLoopback),
            6 => Ok(OperationMode::NormalCan2),
            7 => Ok(OperationMode::Restricted),
            0xff => Ok(OperationMode::Unknown),
            _ => Err(InvalidCode { number }),
        }
    }

    /// Every variant is found again from its number.
    pub proof fn lemma_code_round_trip(self)
        ensures
            OperationMode::spec_from_code(self.spec_code()) == Some(self),
    {
    }
}

/// The pause between two consecutive transmissions, in arbitration bit times.
#[derive(Clone, Copy, Debug, PartialEq, Eq, Structural)]
pub enum InterTransmissionDelay {
    /// No delay between transmissions.
    NoDelay,
    /// 2 bit times between transmissions.
    Delay2,
    /// 4 bit times between transmissions.
    Delay4,
    /// 8 bit times between transmissions.
    Delay8,
    /// 16 bit times between transmissions.
    Delay16,
    /// 32 bit times between transmissions.
    Delay32,
    /// 64 bit times between transmissions.
    Delay64,
    /// 128 bit times between transmissions.
    Delay128,
    /// 256 bit times between transmissions.
    Delay256,
    /// 512 bit times between transmissions.
    Delay512,
    /// 1024 bit times between transmissions.
    Delay1024,
    /// 2048 bit times between transmissions.
    Delay2048,
    /// 4096 bit times between transmissions.
    Delay4096,
}

impl InterTransmissionDelay {
    /// The number that stands for the variant in a register.
    pub open spec fn spec_code(self) -> u8 {
        match self {
            InterTransmissionDelay::NoDelay => 0,
            InterTransmissionDelay::Delay2 => 1,
            InterTransmissionDelay::Delay4 => 2,
            InterTransmissionDelay::Delay8 => 3,
            InterTransmissionDelay::Delay16 => 4,
            InterTransmissionDelay::Delay32 => 5,
            InterTransmissionDelay::Delay64 => 6,
            InterTransmissionDelay::Delay128 => 7,
            InterTransmissionDelay::Delay256 => 8,
            InterTransmissionDelay::Delay512 => 9,
            InterTransmissionDelay::Delay1024 => 10,
            InterTransmissionDelay::Delay2048 => 11,
            InterTransmissionDelay::Delay4096 => 12,
        }
    }

    /// The variant that a number stands for, if it stands for one.
    pub open spec fn spec_from_code(code: u8) -> Option<InterTransmissionDelay> {
        if code == 0 {
            Some(InterTransmissionDelay::NoDelay)
        } else if code == 1 {
            Some(InterTransmissionDelay::Delay2)
        } else if code == 2 {
            Some(InterTransmissionDelay::Delay4)
        } else if code == 3 {
            Some(InterTransmissionDelay::Delay8)
        } else if code == 4 {
            Some(InterTransmissionDelay::Delay16)
        } else if code == 5 {
            Some(InterTransmissionDelay::Delay32)
        } else if code == 6 {
            Some(InterTransmissionDelay::Delay64)
        } else if code == 7 {
            Some(InterTransmissionDelay::Delay128)
        } else if code == 8 {
            Some(InterTransmissionDelay::Delay256)
        } else if code == 9 {
            Some(InterTransmissionDelay::Delay512)
        } else if code == 10 {
            Some(InterTransmissionDelay::Delay1024)
        } else if code == 11 {
            Some(InterTransmissionDelay::Delay2048)
        } else if code == 12 {
            Some(InterTransmissionDelay::Delay4096)
        } else {
            None
        }
    }

    /// The number that stands for the variant in a register.
    pub fn code(&self) -> (code: u8)
        ensures
            code == self.spec_code(),
    {
        match self {
            InterTransmissionDelay::NoDelay => 0,
            InterTransmissionDelay::Delay2 => 1,
            InterTransmissionDelay::Delay4 => 2,
            InterTransmissionDelay::Delay8 => 3,
            InterTransmissionDelay::Delay16 => 4,
            InterTransmissionDelay::Delay32 => 5,
            InterTransmissionDelay::Delay64 => 6,
            InterTransmissionDelay::Delay128 => 7,
            InterTransmissionDelay::Delay256 => 8,
            InterTransmissionDelay::Delay512 => 9,
            InterTransmissionDelay::Delay1024 => 10,
            InterTransmissionDelay::Delay2048 => 11,
            InterTransmissionDelay::Delay4096 => 12,
        }
    }

    /// The variant that `number` stands for; a number that stands for none comes back in the
    /// error.
    pub fn try_from_primitive(number: u8) -> (result: Result<InterTransmissionDelay, InvalidCode>)
        ensures
            result == match InterTransmissionDelay::spec_from_code(number) {
                Some(variant) => Ok::<InterTransmissionDelay, InvalidCode>(variant),
                None => Err::<InterTransmissionDelay, InvalidCode>(InvalidCode { number }),
            },
    {
        match number {
            0 => Ok(InterTransmissionDelay::NoDelay),
            1 => Ok(InterTransmissionDelay::Delay2),
            2 => Ok(InterTransmissionDelay::Delay4),
            3 => Ok(InterTransmissionDelay::Delay8),
            4 => Ok(InterTransmissionDelay::Delay16),
            5 => Ok(InterTransmissionDelay::Delay32),
            6 => Ok(InterTransmissionDelay::Delay64),
            7 => Ok(InterTransmissionDelay::Delay128),
            8 => Ok(InterTransmissionDelay::Delay256),
            9 => Ok(InterTransmissionDelay::Delay512),
            10 => Ok(InterTransmissionDelay::Delay1024),
            11 => Ok(InterTransmissionDelay::Delay2048),
            12 => Ok(InterTransmissionDelay::Delay4096),
            _ => Err(InvalidCode { number }),
        }
    }

    /// Every variant is found again from its number.
    pub proof fn lemma_code_round_trip(self)
        ensures
            InterTransmissionDelay::spec_from_code(self.spec_code()) == Some(self),
    {
    }
}

/// How long the bus must be active before the chip wakes up.
#[derive(Clone, Copy, Debug, PartialEq, Eq, Structural)]
pub enum WakeupFilterTime {
    /// The shortest wake-up filter time.
    T00Filter,
    /// The second wake-up filter time.
    T01Filter,
    /// The third wake-up filter time.
    T10Filter,
    /// The longest wake-up filter time.
    T11Filter,
}

impl WakeupFilterTime {
    /// The number that stands for the variant in a register.
    pub open spec fn spec_code(self) -> u8 {
        match self {
            WakeupFilterTime::T00Filter => 0,
            WakeupFilterTime::T01Filter => 1,
            WakeupFilterTime::T10Filter => 2,
            WakeupFilterTime::T11Filter => 3,
        }
    }

    /// The variant that a number stands for, if it stands for one.
    pub open spec fn spec_from_code(code: u8) -> Option<WakeupFilterTime> {
        if code == 0 {
            Some(WakeupFilterTime::T00Filter)
        } else if code == 1 {
            Some(WakeupFilterTime::T01Filter)
        } else if code == 2 {
            Some(WakeupFilterTime::T10Filter)
        } else if code == 3 {
            Some(WakeupFilterTime::T11Filter)
        } else {
            None
        }
    }

    /// The number that stands for the variant in a register.
    pub fn code(&self) -> (code: u8)
        ensures
            code == self.spec_code(),
    {
        match self {
            WakeupFilterTime::T00Filter => 0,
            WakeupFilterTime::T01Filter => 1,
            WakeupFilterTime::T10Filter => 2,
            WakeupFilterTime::T11Filter => 3,
        }
    }

    /// The variant that `number` stands for; a number that stands for none comes back in the
    /// error.
    pub fn try_from_primitive(number: u8) -> (result: Result<WakeupFilterTime, InvalidCode>)
        ensures
            result == match WakeupFilterTime::spec_from_code(number) {
                Some(variant) => Ok::<WakeupFilterTime, InvalidCode>(variant),
                None => Err::<WakeupFilterTime, InvalidCode>(InvalidCode { number }),
            },
    {
        match number {
            0 => Ok(WakeupFilterTime::T00Filter),
            1 => Ok(WakeupFilterTime::T01Filter),
            2 => Ok(WakeupFilterTime::T10Filter),
            3 => Ok(WakeupFilterTime::T11Filter),
            _ => Err(InvalidCode { number }),
        }
    }

    /// Every variant is found again from its number.
    pub proof fn lemma_code_round_trip(self)
        ensures
            WakeupFilterTime::spec_from_code(self.spec_code()) == Some(self),
    {
    }
}

/// How often a frame that lost arbitration or met an error is sent again.
#[derive(Clone, Copy, Debug, PartialEq, Eq, Structural)]
pub enum RetransmissionAttempts {
    /// A frame is sent once.
    Disabled,
    /// A frame is tried three more times.
    ThreeRetries,
    /// A frame is tried until it is sent.
    UnlimitedRetries,
}

impl RetransmissionAttempts {
    /// The number that stands for the variant in a register.
    pub open spec fn spec_code(self) -> u8 {
        match self {
            RetransmissionAttempts::Disabled => 0,
            RetransmissionAttempts::ThreeRetries => 1,
            RetransmissionAttempts::UnlimitedRetries => 3,
        }
    }

    /// The variant that a number stands for, if it stands for one.
    pub open spec fn spec_from_code(code: u8) -> Option<RetransmissionAttempts> {
        if code == 0 {
            Some(RetransmissionAttempts::Disabled)
        } else if code == 1 {
            Some(RetransmissionAttempts::ThreeRetries)
        } else if code == 3 {
            Some(RetransmissionAttempts::UnlimitedRetries)
        } else {
            None
        }
    }

    /// The number that stands for the variant in a register.
    pub fn code(&self) -> (code: u8)
        ensures
            code == self.spec_code(),
    {
        match self {
            RetransmissionAttempts::Disabled => 0,
            RetransmissionAttempts::ThreeRetries => 1,
            RetransmissionAttempts::UnlimitedRetries => 3,
        }
    }

    /// The variant that `number` stands for; a number that stands for none comes back in the
    /// error.
    pub fn try_from_primitive(number: u8) -> (result: Result<RetransmissionAttempts, InvalidCode>)
        ensures
            result == match RetransmissionAttempts::spec_from_code(number) {
                Some(variant) => Ok::<RetransmissionAttempts, InvalidCode>(variant),
                None => Err::<RetransmissionAttempts, InvalidCode>(InvalidCode { number }),
            },
    {
        match number {
            0 => Ok(RetransmissionAttempts::Disabled),
            1 => Ok(RetransmissionAttempts::ThreeRetries),
            3 => Ok(RetransmissionAttempts::UnlimitedRetries),
            _ => Err(InvalidCode { number }),
        }
    }

    /// Every variant is found again from its number.
    pub proof fn lemma_code_round_trip(self)
        ensures
            RetransmissionAttempts::spec_from_code(self.spec_code()) == Some(self),
    {
    }
}

/// The payload bytes reserved for each message object of a queue.
#[derive(Clone, Copy, Debug, PartialEq, Eq, Structural)]
pub enum PayloadSize {
    /// 8 bytes of payload in each message object.
    Bytes8,
    /// 12 bytes of payload in each message object.
    Bytes12,
    /// 16 bytes of payload in each message object.
    Bytes16,
    /// 20 bytes of payload in each message object.
    Bytes20,
    /// 24 bytes of payload in each message object.
    Bytes24,
    /// 32 bytes of payload in each message object.
    Bytes32,
    /// 48 bytes of payload in each message object.
    Bytes48,
    /// 64 bytes of payload in each message object.
    Bytes64,
}

impl PayloadSize {
    /// The number that stands for the variant in a register.
    pub open spec fn spec_code(self) -> u8 {
        match self {
            PayloadSize::Bytes8 => 0,
            PayloadSize::Bytes12 => 1,
            PayloadSize::Bytes16 => 2,
            PayloadSize::Bytes20 => 3,
            PayloadSize::Bytes24 => 4,
            PayloadSize::Bytes32 => 5,
            PayloadSize::Bytes48 => 6,
            PayloadSize::Bytes64 => 7,
        }
    }

    /// The variant that a number stands for, if it stands for one.
    pub open spec fn spec_from_code(code: u8) -> Option<PayloadSize> {
        if code == 0 {
            Some(PayloadSize::Bytes8)
        } else if code == 1 {
            Some(PayloadSize::Bytes12)
        } else if code == 2 {
            Some(PayloadSize::Bytes16)
        } else if code == 3 {
            Some(PayloadSize::Bytes20)
        } else if code == 4 {
            Some(PayloadSize::Bytes24)
        } else if code == 5 {
            Some(PayloadSize::Bytes32)
        } else if code == 6 {
            Some(PayloadSize::Bytes48)
        } else if code == 7 {
            Some(PayloadSize::Bytes64)
        } else {
            None
        }
    }

    /// The number that stands for the variant in a register.
    pub fn code(&self) -> (code: u8)
        ensures
            code == self.spec_code(),
    {
        match self {
            PayloadSize::Bytes8 => 0,
            PayloadSize::Bytes12 => 1,
            PayloadSize::Bytes16 => 2,
            PayloadSize::Bytes20 => 3,
            PayloadSize::Bytes24 => 4,
            PayloadSize::Bytes32 => 5,
            PayloadSize::Bytes48 => 6,
            PayloadSize::Bytes64 => 7,
        }
    }

    /// The variant that `number` stands for; a number that stands for none comes back in the
    /// error.
    pub fn try_from_primitive(number: u8) -> (result: Result<PayloadSize, InvalidCode>)
        ensures
            result == match PayloadSize::spec_from_code(number) {
                Some(variant) => Ok::<PayloadSize, InvalidCode>(variant),
                None => Err::<PayloadSize, InvalidCode>(InvalidCode { number }),
            },
    {
        match number {
            0 => Ok(PayloadSize::Bytes8),
            1 => Ok(PayloadSize::Bytes12),
            2 => Ok(PayloadSize::Bytes16),
            3 => Ok(PayloadSize::Bytes20),
            4 => Ok(PayloadSize::Bytes24),
            5 => Ok(PayloadSize::Bytes32),
            6 => Ok(PayloadSize::Bytes48),
            7 => Ok(PayloadSize::Bytes64),
            _ => Err(InvalidCode { number }),
        }
    }

    /// Every variant is found again from its number.
    pub proof fn lemma_code_round_trip(self)
        ensures
            PayloadSize::spec_from_code(self.spec_code()) == Some(self),
    {
    }
}

/// The CAN control register.
#[derive(Clone, Copy, Debug, PartialEq, Eq)]
pub struct C1CON(pub u32);

impl C1CON {
    /// Bits 4..=0: the DeviceNet filter bit count.
    pub fn dncnt(&self) -> (value: u8)
        ensures
            value as u32 == field(self.0, 0, 5),
            value <= 31,
    {
        proof {
            lemma_field_bound(self.0, 0, 5);
        }
        get_field(self.0, 0, 5) as u8
    }

    /// Writes bits 4..=0, keeping the low 5 bits of `value`: the DeviceNet filter bit count.
    pub fn set_dncnt(&mut self, value: u8)
        ensures
            final(self).0 == with_field(old(self).0, 0, 5, value as u32),
    {
        self.0 = set_field(self.0, 0, 5, value as u32);
    }

    /// Bit 5: the ISO CRC is used in CAN FD frames.
    pub fn isocrcen(&self) -> (value: bool)
        ensures
            value == flag(self.0, 5),
    {
        get_flag(self.0, 5)
    }

    /// Writes bit 5: the ISO CRC is used in CAN FD frames.
    pub fn set_isocrcen(&mut self, value: bool)
        ensures
            final(self).0 == with_flag(old(self).0, 5, value),
    {
        self.0 = set_flag(self.0, 5, value);
    }

    /// Bit 6: protocol exception events are ignored.
    pub fn pxedis(&self) -> (value: bool)
        ensures
            value == flag(self.0, 6),
    {
        get_flag(self.0, 6)
    }

    /// Writes bit 6: protocol exception events are ignored.
    pub fn set_pxedis(&mut self, value: bool)
        ensures
            final(self).0 == with_flag(old(self).0, 6, value),
    {
        self.0 = set_flag(self.0, 6, value);
    }

    /// Bit 8: the wake-up filter is on.
    pub fn wakfil(&self) -> (value: bool)
        ensures
            value == flag(self.0, 8),
    {
        get_flag(self.0, 8)
    }

    /// Writes bit 8: the wake-up filter is on.
    pub fn set_wakfil(&mut self, value: bool)
        ensures
            final(self).0 == with_flag(old(self).0, 8, value),
    {
        self.0 = set_flag(self.0, 8, value);
    }

    /// Bit 11: the module is sending or receiving.
    pub fn busy(&self) -> (value: bool)
        ensures
            value == flag(self.0, 11),
    {
        get_flag(self.0, 11)
    }

    /// Bit 12: bit rate switching is off.
    pub fn brsdis(&self) -> (value: bool)
        ensures
            value == flag(self.0, 12),
    {
        get_flag(self.0, 12)
    }

    /// Writes bit 12: bit rate switching is off.
    pub fn set_brsdis(&mut self, value: bool)
        ensures
            final(self).0 == with_flag(old(self).0, 12, value),
    {
        self.0 = set_flag(self.0, 12, value);
    }

    /// Bit 16: retransmission attempts are limited.
    pub fn rtxat(&self) -> (value: bool)
        ensures
            value == flag(self.0, 16),
    {
        get_flag(self.0, 16)
    }

    /// Writes bit 16: retransmission attempts are limited.
    pub fn set_rtxat(&mut self, value: bool)
        ensures
            final(self).0 == with_flag(old(self).0, 16, value),
    {
        self.0 = set_flag(self.0, 16, value);
    }

    /// Bit 17: the error state indicator is sent in gateway mode.
    pub fn esigm(&self) -> (value: bool)
        ensures
            value == flag(self.0, 17),
    {
        get_flag(self.0, 17)
    }

    /// Writes bit 17: the error state indicator is sent in gateway mode.
    pub fn set_esigm(&mut self, value: bool)
        ensures
            final(self).0 == with_flag(old(self).0, 17, value),
    {
        self.0 = set_flag(self.0, 17, value);
    }

    /// Bit 18: a system error leads to listen-only mode.
    pub fn serr2lom(&self) -> (value: bool)
        ensures
            value == flag(self.0, 18),
    {
        get_flag(self.0, 18)
    }

    /// Writes bit 18: a system error leads to listen-only mode.
    pub fn set_serr2lom(&mut self, value: bool)
        ensures
            final(self).0 == with_flag(old(self).0, 18, value),
    {
        self.0 = set_flag(self.0, 18, value);
    }

    /// Bit 19: transmitted messages are stored in the transmit event FIFO.
    pub fn stef(&self) -> (value: bool)
        ensures
            value == flag(self.0, 19),
    {
        get_flag(self.0, 19)
    }

    /// Writes bit 19: transmitted messages are stored in the transmit event FIFO.
    pub fn set_stef(&mut self, value: bool)
        ensures
            final(self).0 == with_flag(old(self).0, 19, value),
    {
        self.0 = set_flag(self.0, 19, value);
    }

    /// Bit 20: the transmit queue is on and has RAM reserved.
    pub fn txqen(&self) -> (value: bool)
        ensures
            value == flag(self.0, 20),
    {
        get_flag(self.0, 20)
    }

    /// Writes bit 20: the transmit queue is on and has RAM reserved.
    pub fn set_txqen(&mut self, value: bool)
        ensures
            final(self).0 == with_flag(old(self).0, 20, value),
    {
        self.0 = set_flag(self.0, 20, value);
    }

    /// Bit 27: all pending transmissions are aborted.
    pub fn abat(&self) -> (value: bool)
        ensures
            value == flag(self.0, 27),
    {
        get_flag(self.0, 27)
    }

    /// Writes bit 27: all pending transmissions are aborted.
    pub fn set_abat(&mut self, value: bool)
        ensures
            final(self).0 == with_flag(old(self).0, 27, value),
    {
        self.0 = set_flag(self.0, 27, value);
    }

    /// Bits 10..=9: the wake-up filter time.
    pub open spec fn spec_wft(self) -> Result<WakeupFilterTime, InvalidCode> {
        match WakeupFilterTime::spec_from_code(field(self.0, 9, 2) as u8) {
            Some(value) => Ok(value),
            None => Err(InvalidCode { number: field(self.0, 9, 2) as u8 }),
        }
    }

    /// Bits 10..=9: the wake-up filter time. Every code of the field names a variant, so the error never comes.
    pub fn wft(&self) -> (value: Result<WakeupFilterTime, InvalidCode>)
        ensures
            value == self.spec_wft(),
            value is Ok,
    {
        proof {
            lemma_field_bound(self.0, 9, 2);
        }
        WakeupFilterTime::try_from_primitive(get_field(self.0, 9, 2) as u8)
    }

    /// Writes bits 10..=9: the wake-up filter time.
    pub fn set_wft(&mut self, filter: WakeupFilterTime)
        ensures
            final(self).0 == with_field(old(self).0, 9, 2, filter.spec_code() as u32),
    {
        self.0 = set_field(self.0, 9, 2, filter.code() as u32);
    }

    /// Bits 23..=21: the operating mode.
    pub open spec fn spec_opmode(self) -> OperationMode {
        match OperationMode::spec_from_code(field(self.0, 21, 3) as u8) {
            Some(value) => value,
            None => OperationMode::Unknown,
        }
    }

    /// Bits 23..=21: the operating mode. A code that names no variant reads as `Unknown`.
    pub fn opmode(&self) -> (value: OperationMode)
        ensures
            value == self.spec_opmode(),
    {
        proof {
            lemma_field_bound(self.0, 21, 3);
        }
        match OperationMode::try_from_primitive(get_field(self.0, 21, 3) as u8) {
            Ok(value) => value,
            Err(_) => OperationMode::Unknown,
        }
    }

    /// Writes bits 23..=21: the operating mode, the field that `opmode` reads. `Unknown` stands for no mode of the hardware; its code does not fit the field, and its low three bits are written.
    pub fn set_opmode(&mut self, mode: OperationMode)
        ensures
            final(self).0 == with_field(old(self).0, 21, 3, mode.spec_code() as u32),
    {
        self.0 = set_field(self.0, 21, 3, mode.code() as u32);
    }

    /// Bits 31..=28: the pause between two consecutive transmissions.
    pub open spec fn spec_txbws(self) -> Result<InterTransmissionDelay, InvalidCode> {
        match InterTransmissionDelay::spec_from_code(field(self.0, 28, 4) as u8) {
            Some(value) => Ok(value),
            None => Err(InvalidCode { number: field(self.0, 28, 4) as u8 }),
        }
    }

    /// Bits 31..=28: the pause between two consecutive transmissions. A code that names no variant comes back in the error.
    pub fn txbws(&self) -> (value: Result<InterTransmissionDelay, InvalidCode>)
        ensures
            value == self.spec_txbws(),
    {
        proof {
            lemma_field_bound(self.0, 28, 4);
        }
        InterTransmissionDelay::try_from_primitive(get_field(self.0, 28, 4) as u8)
    }

    /// Writes bits 31..=28: the pause between two consecutive transmissions.
    pub fn set_txbws(&mut self, delay: InterTransmissionDelay)
        ensures
            final(self).0 == with_field(old(self).0, 28, 4, delay.spec_code() as u32),
    {
        self.0 = set_field(self.0, 28, 4, delay.code() as u32);
    }

}

impl Register for C1CON {
    open spec fn spec_address() -> SFRAddress {
        SFRAddress::C1CON
    }

    open spec fn word(&self) -> u32 {
        self.0
    }

    fn address() -> SFRAddress {
        SFRAddress::C1CON
    }

    fn from_word(word: u32) -> Self {
        C1CON(word)
    }

    fn into_word(self) -> u32 {
        self.0
    }
}

impl From<C1CON> for u32 {
    fn from(register: C1CON) -> (word: u32) {
        register.0
    }
}

impl vstd::std_specs::convert::FromSpecImpl<C1CON> for u32 {
    open spec fn obeys_from_spec() -> bool {
        true
    }

    open spec fn from_spec(register: C1CON) -> u32 {
        register.0
    }
}

/// The transmit queue control register.
#[derive(Clone, Copy, Debug, PartialEq, Eq)]
pub struct C1TXQCON(pub u32);

/// The queue depth that a requested depth is stored as: at most 32.
pub open spec fn clamped_fifo_size(size: u8) -> u8 {
    if size > 32 {
        32
    } else {
        size
    }
}

impl C1TXQCON {
    /// Bit 0: interrupt when the queue is not full.
    pub fn txqnie(&self) -> (value: bool)
        ensures
            value == flag(self.0, 0),
    {
        get_flag(self.0, 0)
    }

    /// Writes bit 0: interrupt when the queue is not full.
    pub fn set_txqnie(&mut self, value: bool)
        ensures
            final(self).0 == with_flag(old(self).0, 0, value),
    {
        self.0 = set_flag(self.0, 0, value);
    }

    /// Bit 2: interrupt when the queue is empty.
    pub fn txqeie(&self) -> (value: bool)
        ensures
            value == flag(self.0, 2),
    {
        get_flag(self.0, 2)
    }

    /// Writes bit 2: interrupt when the queue is empty.
    pub fn set_txqeie(&mut self, value: bool)
        ensures
            final(self).0 == with_flag(old(self).0, 2, value),
    {
        self.0 = set_flag(self.0, 2, value);
    }

    /// Bit 4: interrupt when the transmit attempts are used up.
    pub fn txatie(&self) -> (value: bool)
        ensures
            value == flag(self.0, 4),
    {
        get_flag(self.0, 4)
    }

    /// Writes bit 4: interrupt when the transmit attempts are used up.
    pub fn set_txatie(&mut self, value: bool)
        ensures
            final(self).0 == with_flag(old(self).0, 4, value),
    {
        self.0 = set_flag(self.0, 4, value);
    }

    /// Bit 7: the queue transmits (always set).
    pub fn txen(&self) -> (value: bool)
        ensures
            value == flag(self.0, 7),
    {
        get_flag(self.0, 7)
    }

    /// Bit 8: the queue head moves on by one message.
    pub fn uinc(&self) -> (value: bool)
        ensures
            value == flag(self.0, 8),
    {
        get_flag(self.0, 8)
    }

    /// Writes bit 8: the queue head moves on by one message.
    pub fn set_uinc(&mut self, value: bool)
        ensures
            final(self).0 == with_flag(old(self).0, 8, value),
    {
        self.0 = set_flag(self.0, 8, value);
    }

    /// Bit 9: the queued messages are to be sent.
    pub fn txreq(&self) -> (value: bool)
        ensures
            value == flag(self.0, 9),
    {
        get_flag(self.0, 9)
    }

    /// Writes bit 9: the queued messages are to be sent.
    pub fn set_txreq(&mut self, value: bool)
        ensures
            final(self).0 == with_flag(old(self).0, 9, value),
    {
        self.0 = set_flag(self.0, 9, value);
    }

    /// Bit 10: the queue is being reset.
    pub fn freset(&self) -> (value: bool)
        ensures
            value == flag(self.0, 10),
    {
        get_flag(self.0, 10)
    }

    /// Bits 20..=16: the priority of the queue, 0 lowest and 31 highest.
    pub fn txpri(&self) -> (value: u8)
        ensures
            value as u32 == field(self.0, 16, 5),
            value <= 31,
    {
        proof {
            lemma_field_bound(self.0, 16, 5);
        }
        get_field(self.0, 16, 5) as u8
    }

    /// Writes bits 20..=16, keeping the low 5 bits of `value`: the priority of the queue, 0 lowest and 31 highest.
    pub fn set_txpri(&mut self, value: u8)
        ensures
            final(self).0 == with_field(old(self).0, 16, 5, value as u32),
    {
        self.0 = set_field(self.0, 16, 5, value as u32);
    }

    /// The highest message priority: 31.
    pub fn highest_priority() -> (priority: u8)
        ensures
            priority == 31,
    {
        0b11111
    }

    /// The lowest message priority: 0.
    pub fn lowest_priority() -> (priority: u8)
        ensures
            priority == 0,
    {
        0
    }

    /// Bits 22..=21: how often a frame is sent again.
    pub open spec fn spec_retransmission_attempts(self) -> RetransmissionAttempts {
        match RetransmissionAttempts::spec_from_code(field(self.0, 21, 2) as u8) {
            Some(value) => value,
            None => RetransmissionAttempts::UnlimitedRetries,
        }
    }

    /// Bits 22..=21: how often a frame is sent again. A code that names no variant reads as `UnlimitedRetries`.
    pub fn retransmission_attempts(&self) -> (value: RetransmissionAttempts)
        ensures
            value == self.spec_retransmission_attempts(),
    {
        proof {
            lemma_field_bound(self.0, 21, 2);
        }
        match RetransmissionAttempts::try_from_primitive(get_field(self.0, 21, 2) as u8) {
            Ok(value) => value,
            Err(_) => RetransmissionAttempts::UnlimitedRetries,
        }
    }

    /// Writes bits 22..=21: how often a frame is sent again.
    pub fn set_retransmission_attempts(&mut self, value: RetransmissionAttempts)
        ensures
            final(self).0 == with_field(old(self).0, 21, 2, value.spec_code() as u32),
    {
        self.0 = set_field(self.0, 21, 2, value.code() as u32);
    }

    /// The number of message objects in the queue, 1 to 32: bits 28..=24 hold one less.
    pub open spec fn spec_fifo_size(self) -> u8 {
        (field(self.0, 24, 5) + 1) as u8
    }

    /// The number of message objects in the queue, 1 to 32.
    pub fn fifo_size(&self) -> (size: u8)
        ensures
            size == self.spec_fifo_size(),
            1 <= size <= 32,
    {
        proof {
            lemma_field_bound(self.0, 24, 5);
        }
        get_field(self.0, 24, 5) as u8 + 1
    }

    /// Sets the number of message objects in the queue. A request for more than 32 is stored as
    /// 32. A request for none is refused and the register stays as it was.
    pub fn set_fifo_size(&mut self, size: u8) -> (result: Result<(), InvalidFifoSize>)
        ensures
            size == 0 ==> result == Err::<(), InvalidFifoSize>(InvalidFifoSize(size)) && final(self).0
                == old(self).0,
            size >= 1 ==> result == Ok::<(), InvalidFifoSize>(()) && final(self).0 == with_field(
                old(self).0,
                24,
                5,
                (clamped_fifo_size(size) - 1) as u32,
            ),
    {
        if size == 0 {
            return Err(InvalidFifoSize(size));
        }
        let stored: u8 = if size > 32 {
            31
        } else {
            size - 1
        };
        self.0 = set_field(self.0, 24, 5, stored as u32);
        Ok(())
    }

    /// Bits 31..=29: the payload bytes of each message object.
    pub open spec fn spec_payload_size(self) -> PayloadSize {
        match PayloadSize::spec_from_code(field(self.0, 29, 3) as u8) {
            Some(value) => value,
            None => PayloadSize::Bytes8,
        }
    }

    /// Bits 31..=29: the payload bytes of each message object. A code that names no variant reads as `Bytes8`.
    pub fn payload_size(&self) -> (value: PayloadSize)
        ensures
            value == self.spec_payload_size(),
    {
        proof {
            lemma_field_bound(self.0, 29, 3);
        }
        match PayloadSize::try_from_primitive(get_field(self.0, 29, 3) as u8) {
            Ok(value) => value,
            Err(_) => PayloadSize::Bytes8,
        }
    }

    /// Writes bits 31..=29: the payload bytes of each message object.
    pub fn set_payload_size(&mut self, size: PayloadSize)
        ensures
            final(self).0 == with_field(old(self).0, 29, 3, size.spec_code() as u32),
    {
        self.0 = set_field(self.0, 29, 3, size.code() as u32);
    }

}

impl Register for C1TXQCON {
    open spec fn spec_address() -> SFRAddress {
        SFRAddress::C1TXQCON
    }

    open spec fn word(&self) -> u32 {
        self.0
    }

    fn address() -> SFRAddress {
        SFRAddress::C1TXQCON
    }

    fn from_word(word: u32) -> Self {
        C1TXQCON(word)
    }

    fn into_word(self) -> u32 {
        self.0
    }
}

impl From<C1TXQCON> for u32 {
    fn from(register: C1TXQCON) -> (word: u32) {
        register.0
    }
}

impl vstd::std_specs::convert::FromSpecImpl<C1TXQCON> for u32 {
    open spec fn obeys_from_spec() -> bool {
        true
    }

    open spec fn from_spec(register: C1TXQCON) -> u32 {
        register.0
    }
}

/// A wake-up filter time that was written reads back as written, and never as an error.
pub proof fn lemma_wft_round_trip(word: u32, filter: WakeupFilterTime)
    ensures
        C1CON(with_field(word, 9, 2, filter.spec_code() as u32)).spec_wft() == Ok::<
            WakeupFilterTime,
            InvalidCode,
        >(filter),
{
    let code = filter.spec_code() as u32;
    lemma_field_of_with_field(word, 9, 2, code);
    assert(code <= 3 ==> code & crate::bits::low_mask(2) == code) by (bit_vector);
}

/// A transmission delay that was written reads back as written.
pub proof fn lemma_txbws_round_trip(word: u32, delay: InterTransmissionDelay)
    ensures
        C1CON(with_field(word, 28, 4, delay.spec_code() as u32)).spec_txbws() == Ok::<
            InterTransmissionDelay,
            InvalidCode,
        >(delay),
{
    let code = delay.spec_code() as u32;
    lemma_field_of_with_field(word, 28, 4, code);
    assert(code <= 15 ==> code & crate::bits::low_mask(4) == code) by (bit_vector);
}

/// An operating mode that was written reads back as written, for each of the eight modes
/// that the hardware has.
pub proof fn lemma_opmode_round_trip(word: u32, mode: OperationMode)
    requires
        mode != OperationMode::Unknown,
    ensures
        C1CON(with_field(word, 21, 3, mode.spec_code() as u32)).spec_opmode() == mode,
{
    let code = mode.spec_code() as u32;
    lemma_field_of_with_field(word, 21, 3, code);
    assert(code <= 7 ==> code & crate::bits::low_mask(3) == code) by (bit_vector);
}

/// A retransmission setting that was written reads back as written.
pub proof fn lemma_retransmission_attempts_round_trip(word: u32, value: RetransmissionAttempts)
    ensures
        C1TXQCON(
            with_field(word, 21, 2, value.spec_code() as u32),
        ).spec_retransmission_attempts() == value,
{
    let code = value.spec_code() as u32;
    lemma_field_of_with_field(word, 21, 2, code);
    assert(code <= 3 ==> code & crate::bits::low_mask(2) == code) by (bit_vector);
}

/// A payload size that was written reads back as written.
pub proof fn lemma_payload_size_round_trip(word: u32, size: PayloadSize)
    ensures
        C1TXQCON(with_field(word, 29, 3, size.spec_code() as u32)).spec_payload_size() == size,
{
    let code = size.spec_code() as u32;
    lemma_field_of_with_field(word, 29, 3, code);
    assert(code <= 7 ==> code & crate::bits::low_mask(3) == code) by (bit_vector);
}

/// A queue depth that was written reads back clamped to 32: any request of one or more
/// objects reads back as the smaller of the request and 32.
pub proof fn lemma_fifo_size_round_trip(word: u32, size: u8)
    requires
        size >= 1,
    ensures
        C1TXQCON(
            with_field(word, 24, 5, (clamped_fifo_size(size) - 1) as u32),
        ).spec_fifo_size() == clamped_fifo_size(size),
{
    let stored = (clamped_fifo_size(size) - 1) as u32;
    lemma_field_of_with_field(word, 24, 5, stored);
    assert(stored <= 31 ==> stored & crate::bits::low_mask(5) == stored) by (bit_vector);
}

/// A code in the register that names no variant reads as the fallback of its field: the mode
/// as `Unknown`, the retransmission setting as `UnlimitedRetries`, the payload size as
/// `Bytes8`. The only such code that the field widths admit is 2 in the retransmission bits.
pub proof fn lemma_unmapped_codes_fall_back(word: u32)
    ensures
        OperationMode::spec_from_code(field(word, 21, 3) as u8) is None ==> C1CON(
            word,
        ).spec_opmode() == OperationMode::Unknown,
        RetransmissionAttempts::spec_from_code(field(word, 21, 2) as u8) is None ==> C1TXQCON(
            word,
        ).spec_retransmission_attempts() == RetransmissionAttempts::UnlimitedRetries,
        PayloadSize::spec_from_code(field(word, 29, 3) as u8) is None ==> C1TXQCON(
            word,
        ).spec_payload_size() == PayloadSize::Bytes8,
        field(word, 21, 2) == 2 ==> C1TXQCON(word).spec_retransmission_attempts()
            == RetransmissionAttempts::UnlimitedRetries,
{
}

} // verus!
