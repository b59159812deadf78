//! What a caller asks of the configuration sequence.
use crate::can::control::{PayloadSize, RetransmissionAttempts};
use crate::can::fifo::Mode;
use vstd::prelude::*;

verus! {

/// Whether the PLL multiplies the clock.
#[derive(Clone, Copy, Debug, PartialEq, Eq, Structural)]
pub enum PLL {
    /// The PLL is on.
    On,
    /// The PLL is off.
    Off,
}

/// The divider of the system clock.
#[derive(Clone, Copy, Debug, PartialEq, Eq, Structural)]
pub enum SysClkDivider {
    /// The system clock is the oscillator clock.
    DivByOne,
    /// The system clock is half the oscillator clock.
    DivByTwo,
}

/// The clock setup.
#[derive(Clone, Copy, Debug)]
pub struct Oscillator {
    pub pll: PLL,
    pub divider: SysClkDivider,
}

/// The behaviour of the chip's pins.
#[derive(Clone, Copy, Debug)]
pub struct IOConfiguration {
    pub enable_tx_standby_pin: bool,
    pub txcan_open_drain: bool,
    pub sof_on_clko: bool,
    pub interrupt_pin_open_drain: bool,
}

/// The setup of the transmit queue. A `fifo_size` of zero means that the queue is not used.
#[derive(Clone, Copy, Debug)]
pub struct TxQueueConfiguration {
    /// 0 (lowest) to 31 (highest).
    pub message_priority: u8,
    pub retransmission_attempts: RetransmissionAttempts,
    /// 0 to 32 message objects.
    pub fifo_size: u8,
    pub payload_size: PayloadSize,
}

/// The setup of one of the 31 FIFOs.
#[derive(Clone, Copy, Debug)]
pub struct FIFOConfiguration {
    /// 1 to 31.
    pub fifo_number: u8,
    /// 0 (lowest) to 31 (highest).
    pub priority: u8,
    pub payload_size: PayloadSize,
    /// 1 to 32 message objects.
    pub fifo_size: u8,
    pub retry_attempt: RetransmissionAttempts,
    pub mode: Mode,
}

/// Everything the configuration sequence needs, handed over once.
pub struct Settings<'a> {
    pub oscillator: Oscillator,
    pub ioconfiguration: IOConfiguration,
    pub txqueue: TxQueueConfiguration,
    pub fifoconfigs: &'a [FIFOConfiguration],
}

} // verus!
