//! The decisions of the configuration sequence, as functions from what was read to what is
//! written, and the shape of the bus record that each step of the sequence leaves.
use crate::bits::{
    field, flag, get_flag, le_bytes, le_word, lemma_with_field_keeps_others, set_flag,
    with_field, with_flag,
};
use crate::bus::{
    framed, idle, is_read, is_sfr_read, is_sfr_write, is_update, is_write,
    lemma_prefix_transitive, lemma_push, lemma_read_extends, lemma_read_framed,
    lemma_sfr_read_extends, lemma_update_extends, lemma_write_extends, lemma_write_framed, zeros,
    BusOp, RAM_START,
};
use crate::can::control::{clamped_fifo_size, OperationMode, C1CON, C1TXQCON};
use crate::generic::SFRAddress;
use crate::settings::{IOConfiguration, Oscillator, SysClkDivider, TxQueueConfiguration, PLL};
use crate::spi::{ConfigError, Error};
use vstd::prelude::*;

verus! {

/// How long the driver waits between two polls, in microseconds.
pub const POLL_INTERVAL_US: u32 = 500;

/// How often the CAN control register is polled, after configuration mode was asked for,
/// before the wait for it is given up.
pub const CONFIG_MODE_ATTEMPTS: u8 = 5;

/// How often the oscillator register is read before the wait for the PLL is given up.
pub const PLL_ATTEMPTS: u8 = 3;

/// The CAN control word that asks for configuration mode: the word read, with the operating
/// mode replaced.
pub open spec fn config_mode_request(word: u32) -> u32 {
    with_field(word, 21, 3, OperationMode::Configuration.spec_code() as u32)
}

/// Whether a CAN control word reports configuration mode.
pub open spec fn in_configuration_mode(word: u32) -> bool {
    C1CON(word).spec_opmode() == OperationMode::Configuration
}

/// The oscillator word to write: the PLL and the divider as asked, and the clock switched on.
pub open spec fn oscillator_word(word: u32, oscillator: Oscillator) -> u32 {
    with_flag(
        with_flag(
            with_flag(word, 0, oscillator.pll == PLL::On),
            4,
            oscillator.divider == SysClkDivider::DivByTwo,
        ),
        2,
        false,
    )
}

/// Whether an oscillator word reports that the PLL has locked.
pub open spec fn pll_ready(word: u32) -> bool {
    flag(word, 8)
}

/// The input/output control word to write: the four pin settings as asked.
pub open spec fn io_word(word: u32, io: IOConfiguration) -> u32 {
    with_flag(
        with_flag(
            with_flag(with_flag(word, 6, io.enable_tx_standby_pin), 28, io.txcan_open_drain),
            29,
            io.sof_on_clko,
        ),
        30,
        io.interrupt_pin_open_drain,
    )
}

/// Whether the settings use the transmit queue at all.
pub open spec fn uses_tx_queue(queue: TxQueueConfiguration) -> bool {
    queue.fifo_size > 0
}

/// The transmit queue control word to write: retransmission attempts and priority always,
/// depth and payload size only where the queue is used.
pub open spec fn tx_queue_word(word: u32, queue: TxQueueConfiguration) -> u32 {
    let base = with_field(
        with_field(word, 21, 2, queue.retransmission_attempts.spec_code() as u32),
        16,
        5,
        queue.message_priority as u32,
    );
    if uses_tx_queue(queue) {
        with_field(
            with_field(base, 24, 5, (clamped_fifo_size(queue.fifo_size) - 1) as u32),
            29,
            3,
            queue.payload_size.spec_code() as u32,
        )
    } else {
        base
    }
}

/// The CAN control word that brings the queue-enable bit in line with whether the queue is
/// used, and stops the storing of transmit events; `None` where the bit is right already and
/// nothing needs writing.
pub open spec fn queue_enable_correction(word: u32, in_use: bool) -> Option<u32> {
    if flag(word, 20) != in_use {
        Some(with_flag(with_flag(word, 20, in_use), 19, false))
    } else {
        None
    }
}

/// Computes the CAN control word that asks for configuration mode.
pub fn request_word(word: u32) -> (request: u32)
    ensures
        request == config_mode_request(word),
{
    let mut register = C1CON(word);
    register.set_opmode(OperationMode::Configuration);
    register.0
}

/// Tells whether a CAN control word reports configuration mode.
pub fn reports_configuration_mode(word: u32) -> (reported: bool)
    ensures
        reported == in_configuration_mode(word),
{
    C1CON(word).opmode() == OperationMode::Configuration
}

/// Computes the oscillator word to write.
pub fn program_oscillator_word(word: u32, oscillator: &Oscillator) -> (programmed: u32)
    ensures
        programmed == oscillator_word(word, *oscillator),
{
    let pll_on = match oscillator.pll {
        PLL::On => true,
        PLL::Off => false,
    };
    let by_two = match oscillator.divider {
        SysClkDivider::DivByOne => false,
        SysClkDivider::DivByTwo => true,
    };
    set_flag(set_flag(set_flag(word, 0, pll_on), 4, by_two), 2, false)
}

/// Tells whether an oscillator word reports that the PLL has locked.
pub fn reports_pll_ready(word: u32) -> (ready: bool)
    ensures
        ready == pll_ready(word),
{
    get_flag(word, 8)
}

/// Computes the input/output control word to write.
pub fn program_io_word(word: u32, io: &IOConfiguration) -> (programmed: u32)
    ensures
        programmed == io_word(word, *io),
{
    set_flag(
        set_flag(
            set_flag(set_flag(word, 6, io.enable_tx_standby_pin), 28, io.txcan_open_drain),
            29,
            io.sof_on_clko,
        ),
        30,
        io.interrupt_pin_open_drain,
    )
}

/// Computes the transmit queue control word to write.
pub fn program_tx_queue_word(word: u32, queue: &TxQueueConfiguration) -> (programmed: u32)
    ensures
        programmed == tx_queue_word(word, *queue),
{
    let mut register = C1TXQCON(word);
    register.set_retransmission_attempts(queue.retransmission_attempts);
    register.set_txpri(queue.message_priority);
    match register.set_fifo_size(queue.fifo_size) {
        Ok(_) => register.set_payload_size(queue.payload_size),
        // A depth of zero is refused: the queue is not used, and both fields stay.
        Err(_) => (),
    }
    register.0
}

/// Decides whether the CAN control register needs a corrective write, and computes it.
pub fn correct_queue_enable(word: u32, in_use: bool) -> (correction: Option<u32>)
    ensures
        correction == queue_enable_correction(word, in_use),
{
    let mut register = C1CON(word);
    if register.txqen() != in_use {
        register.set_txqen(in_use);
        register.set_stef(false);
        Some(register.0)
    } else {
        None
    }
}

/// A queue that is not used keeps the depth and the payload size that the hardware holds: the
/// word written for a queue of size zero has both fields as they were read.
pub proof fn lemma_unused_queue_keeps_size_fields(word: u32, queue: TxQueueConfiguration)
    requires
        queue.fifo_size == 0,
    ensures
        field(tx_queue_word(word, queue), 24, 5) == field(word, 24, 5),
        field(tx_queue_word(word, queue), 29, 3) == field(word, 29, 3),
{
    let attempts = queue.retransmission_attempts.spec_code() as u32;
    let first = with_field(word, 21, 2, attempts);
    lemma_with_field_keeps_others(word, 21, 2, attempts, 24, 5);
    lemma_with_field_keeps_others(word, 21, 2, attempts, 29, 3);
    lemma_with_field_keeps_others(first, 16, 5, queue.message_priority as u32, 24, 5);
    lemma_with_field_keeps_others(first, 16, 5, queue.message_priority as u32, 29, 3);
}

/// The corrective write is made exactly when the queue-enable bit that the hardware holds
/// differs from whether the queue is used. For a queue that is not used: exactly when the bit
/// is set.
pub proof fn lemma_correction_only_on_disagreement(word: u32, in_use: bool)
    ensures
        queue_enable_correction(word, in_use) is Some <==> flag(word, 20) != in_use,
        queue_enable_correction(word, false) is Some <==> flag(word, 20),
{
}

/// What a poll of the CAN control register counts as: the word read, or zero where the
/// transport failed.
pub open spec fn poll_word(read: Result<u32, Error>) -> u32 {
    match read {
        Ok(word) => word,
        Err(_) => 0,
    }
}

/// The change that asks for configuration mode.
pub open spec fn config_mode_change() -> spec_fn(u32, u32) -> bool {
    |word: u32, written: u32| written == config_mode_request(word)
}

/// `after` is `before` followed by the request for configuration mode: the CAN control
/// register read and, only if the read succeeded, written back with the operating mode
/// replaced. An access that fails is the result.
pub open spec fn is_config_mode_requested(
    before: Seq<BusOp>,
    after: Seq<BusOp>,
    result: Result<(), ConfigError>,
) -> bool {
    exists|step: Result<(), Error>|
        {
            &&& #[trigger] is_update(
                before,
                after,
                SFRAddress::C1CON.spec_value(),
                config_mode_change(),
                step,
            )
            &&& result == as_config_result(step)
        }
}

/// The record just before poll number `polls`: every poll but the first follows a wait.
pub open spec fn before_poll(earlier: Seq<BusOp>, polls: nat) -> Seq<BusOp> {
    if polls > 1 {
        earlier.push(BusOp::Delay { us: POLL_INTERVAL_US })
    } else {
        earlier
    }
}

/// Whether poll number `polls` is made: it is the first, or the poll before it, which saw
/// `previous`, did not see configuration mode.
pub open spec fn poll_is_due(polls: nat, previous: u32) -> bool {
    polls > 1 ==> !in_configuration_mode(previous)
}

/// `now` is `start` followed by `polls` polls of the CAN control register, with a wait
/// between any two of them, none but the last of which saw configuration mode; `observed` is
/// what the last poll saw. A poll on which the transport failed saw a word of zero.
pub open spec fn config_mode_polled(
    start: Seq<BusOp>,
    now: Seq<BusOp>,
    polls: nat,
    observed: u32,
) -> bool
    decreases polls,
{
    if polls == 0 {
        now == start
    } else {
        exists|earlier: Seq<BusOp>, previous: u32, read: Result<u32, Error>|
            #![trigger
                poll_is_due(polls, previous),
                is_sfr_read(before_poll(earlier, polls), now, SFRAddress::C1CON.spec_value(), read)]
            {
                &&& config_mode_polled(start, earlier, (polls - 1) as nat, previous)
                &&& poll_is_due(polls, previous)
                &&& is_sfr_read(
                    before_poll(earlier, polls),
                    now,
                    SFRAddress::C1CON.spec_value(),
                    read,
                )
                &&& observed == poll_word(read)
            }
    }
}

/// `after` is `before` followed by the wait for configuration mode: at least one and at most
/// five polls, ended by the first that sees configuration mode. Five polls without a sighting
/// are a timeout; a poll on which the transport fails is a poll without a sighting.
pub open spec fn is_config_mode_awaited(
    before: Seq<BusOp>,
    after: Seq<BusOp>,
    result: Result<(), ConfigError>,
) -> bool {
    exists|polls: nat, observed: u32|
        {
            &&& 1 <= polls <= CONFIG_MODE_ATTEMPTS
            &&& #[trigger] config_mode_polled(before, after, polls, observed)
            &&& in_configuration_mode(observed) ==> result == Ok::<(), ConfigError>(())
            &&& !in_configuration_mode(observed) ==> polls == CONFIG_MODE_ATTEMPTS && result
                == Err::<(), ConfigError>(ConfigError::ConfigurationModeTimeout)
        }
}

/// The word with only bit `bit` set.
pub open spec fn walking_bit(bit: u32) -> u32 {
    1u32 << bit
}

/// `after` is `before` followed by one round of the echo test: the word with only bit `bit`
/// set is written to the start of the RAM and four bytes are read back from there. A failed
/// access is the result; so is a word that reads back changed.
pub open spec fn is_echo_round(
    before: Seq<BusOp>,
    after: Seq<BusOp>,
    bit: u32,
    result: Result<(), ConfigError>,
) -> bool {
    exists|mid: Seq<BusOp>, written: Result<(), Error>|
        {
            &&& #[trigger] is_write(before, mid, RAM_START, le_bytes(walking_bit(bit)), written)
            &&& match written {
                Err(e) => after == mid && result == Err::<(), ConfigError>(ConfigError::Other(e)),
                Ok(_) => exists|received: Seq<u8>, read: Result<(), Error>|
                    {
                        &&& received.len() == 4
                        &&& #[trigger] is_read(mid, after, RAM_START, zeros(), received, read)
                        &&& result == match read {
                            Err(e) => Err::<(), ConfigError>(ConfigError::Other(e)),
                            Ok(_) => if le_word(received) == walking_bit(bit) {
                                Ok::<(), ConfigError>(())
                            } else {
                                Err::<(), ConfigError>(ConfigError::SPIFailedRAMEcho)
                            },
                        }
                    },
            }
        }
}

/// `now` is `start` followed by the echo rounds for the bits below `rounds`, each of which
/// read back what was written.
pub open spec fn echoed(start: Seq<BusOp>, now: Seq<BusOp>, rounds: nat) -> bool
    decreases rounds,
{
    if rounds == 0 {
        now == start
    } else {
        exists|earlier: Seq<BusOp>|
            #![trigger is_echo_round(earlier, now, (rounds - 1) as u32, Ok(()))]
            {
                &&& echoed(start, earlier, (rounds - 1) as nat)
                &&& is_echo_round(earlier, now, (rounds - 1) as u32, Ok(()))
            }
    }
}

/// `after` is `before` followed by the echo test: one round for each of the 32 bits, the
/// lowest first, ended by the first round that fails.
pub open spec fn is_comms_verified(
    before: Seq<BusOp>,
    after: Seq<BusOp>,
    result: Result<(), ConfigError>,
) -> bool {
    match result {
        Ok(_) => echoed(before, after, 32),
        Err(e) => exists|rounds: nat, earlier: Seq<BusOp>|
            {
                &&& rounds < 32
                &&& #[trigger] echoed(before, earlier, rounds)
                &&& is_echo_round(earlier, after, rounds as u32, Err(e))
            },
    }
}

/// The change that programs the oscillator register.
pub open spec fn oscillator_change(oscillator: Oscillator) -> spec_fn(u32, u32) -> bool {
    |word: u32, written: u32| written == oscillator_word(word, oscillator)
}

/// The change that programs the input/output control register.
pub open spec fn io_change(io: IOConfiguration) -> spec_fn(u32, u32) -> bool {
    |word: u32, written: u32| written == io_word(word, io)
}

/// The change that programs the transmit queue control register.
pub open spec fn tx_queue_change(queue: TxQueueConfiguration) -> spec_fn(u32, u32) -> bool {
    |word: u32, written: u32| written == tx_queue_word(word, queue)
}

/// A failed register access as a failure of the configuration sequence.
pub open spec fn as_config_result(result: Result<(), Error>) -> Result<(), ConfigError> {
    match result {
        Ok(_) => Ok(()),
        Err(e) => Err(ConfigError::Other(e)),
    }
}

/// `now` is `start` followed by `polls` reads of the oscillator register that succeeded and
/// did not see the PLL locked, each followed by a wait.
pub open spec fn pll_waited(start: Seq<BusOp>, now: Seq<BusOp>, polls: nat) -> bool
    decreases polls,
{
    if polls == 0 {
        now == start
    } else {
        exists|earlier: Seq<BusOp>, read: Seq<BusOp>, word: u32|
            #![trigger is_sfr_read(earlier, read, SFRAddress::OSC.spec_value(), Ok(word))]
            {
                &&& pll_waited(start, earlier, (polls - 1) as nat)
                &&& is_sfr_read(earlier, read, SFRAddress::OSC.spec_value(), Ok(word))
                &&& !pll_ready(word)
                &&& now == read.push(BusOp::Delay { us: POLL_INTERVAL_US })
            }
    }
}

/// What the last read of the wait for the PLL decides.
pub open spec fn pll_verdict(read: Result<u32, Error>) -> Result<(), ConfigError> {
    match read {
        Err(e) => Err(ConfigError::Other(e)),
        Ok(word) => if pll_ready(word) {
            Ok(())
        } else {
            Err(ConfigError::PLLNotReady)
        },
    }
}

/// `after` is `before` followed by the wait for the PLL: at most three reads of the
/// oscillator register with a wait between them, ended by the first that sees the PLL locked
/// or fails. Three reads that do not see it locked end in `PLLNotReady`.
pub open spec fn is_pll_awaited(
    before: Seq<BusOp>,
    after: Seq<BusOp>,
    result: Result<(), ConfigError>,
) -> bool {
    exists|polls: nat, earlier: Seq<BusOp>, read: Result<u32, Error>|
        #![trigger
            pll_waited(before, earlier, polls),
            is_sfr_read(earlier, after, SFRAddress::OSC.spec_value(), read)]
        {
            &&& polls <= PLL_ATTEMPTS - 1
            &&& pll_waited(before, earlier, polls)
            &&& is_sfr_read(earlier, after, SFRAddress::OSC.spec_value(), read)
            &&& result == pll_verdict(read)
            &&& result == Err::<(), ConfigError>(ConfigError::PLLNotReady) ==> polls
                == PLL_ATTEMPTS - 1
        }
}

/// `after` is `before` followed by the reconciliation of the queue-enable bit: the CAN
/// control register is read and written back corrected only where the bit differs from
/// `in_use`.
pub open spec fn is_queue_reconciled(
    before: Seq<BusOp>,
    after: Seq<BusOp>,
    in_use: bool,
    result: Result<(), Error>,
) -> bool {
    exists|mid: Seq<BusOp>, read: Result<u32, Error>|
        {
            &&& #[trigger] is_sfr_read(before, mid, SFRAddress::C1CON.spec_value(), read)
            &&& match read {
                Err(e) => after == mid && result == Err::<(), Error>(e),
                Ok(word) => match queue_enable_correction(word, in_use) {
                    None => after == mid && result == Ok::<(), Error>(()),
                    Some(corrected) => is_sfr_write(
                        mid,
                        after,
                        SFRAddress::C1CON.spec_value(),
                        corrected,
                        result,
                    ),
                },
            }
        }
}

/// `after` is `before` followed by the programming of the transmit queue: its control
/// register updated and then, only if that succeeded, the queue-enable bit reconciled.
pub open spec fn is_tx_queue_programmed(
    before: Seq<BusOp>,
    after: Seq<BusOp>,
    queue: TxQueueConfiguration,
    result: Result<(), ConfigError>,
) -> bool {
    exists|mid: Seq<BusOp>, updated: Result<(), Error>|
        {
            &&& #[trigger] is_update(
                before,
                mid,
                SFRAddress::C1TXQCON.spec_value(),
                tx_queue_change(queue),
                updated,
            )
            &&& match updated {
                Err(e) => after == mid && result == Err::<(), ConfigError>(ConfigError::Other(e)),
                Ok(_) => exists|reconciled: Result<(), Error>|
                    {
                        &&& #[trigger] is_queue_reconciled(
                            mid,
                            after,
                            uses_tx_queue(queue),
                            reconciled,
                        )
                        &&& result == as_config_result(reconciled)
                    },
            }
        }
}

/// The last steps of the sequence, from the programming of the pins on.
pub open spec fn is_configured_from_pll(
    before: Seq<BusOp>,
    after: Seq<BusOp>,
    io: IOConfiguration,
    queue: TxQueueConfiguration,
    result: Result<(), ConfigError>,
) -> bool {
    exists|at: Seq<BusOp>, step: Result<(), Error>|
        {
            &&& #[trigger] is_update(before, at, SFRAddress::IOCON.spec_value(), io_change(io), step)
            &&& match step {
                Err(e) => after == at && result == Err::<(), ConfigError>(ConfigError::Other(e)),
                Ok(_) => is_tx_queue_programmed(at, after, queue, result),
            }
        }
}

/// The steps of the sequence that follow the programming of the oscillator: the wait for the
/// PLL, only where the PLL was asked for, and the rest.
pub open spec fn is_configured_from_oscillator(
    before: Seq<BusOp>,
    after: Seq<BusOp>,
    oscillator: Oscillator,
    io: IOConfiguration,
    queue: TxQueueConfiguration,
    result: Result<(), ConfigError>,
) -> bool {
    if oscillator.pll == PLL::On {
        exists|at: Seq<BusOp>, step: Result<(), ConfigError>|
            {
                &&& #[trigger] is_pll_awaited(before, at, step)
                &&& match step {
                    Err(e) => after == at && result == Err::<(), ConfigError>(e),
                    Ok(_) => is_configured_from_pll(at, after, io, queue, result),
                }
            }
    } else {
        is_configured_from_pll(before, after, io, queue, result)
    }
}

/// The steps of the sequence that follow the echo test.
pub open spec fn is_configured_from_echo(
    before: Seq<BusOp>,
    after: Seq<BusOp>,
    oscillator: Oscillator,
    io: IOConfiguration,
    queue: TxQueueConfiguration,
    result: Result<(), ConfigError>,
) -> bool {
    exists|at: Seq<BusOp>, step: Result<(), Error>|
        {
            &&& #[trigger] is_update(
                before,
                at,
                SFRAddress::OSC.spec_value(),
                oscillator_change(oscillator),
                step,
            )
            &&& match step {
                Err(e) => after == at && result == Err::<(), ConfigError>(ConfigError::Other(e)),
                Ok(_) => is_configured_from_oscillator(at, after, oscillator, io, queue, result),
            }
        }
}

/// The steps of the sequence that follow the entry into configuration mode.
pub open spec fn is_configured_from_config_mode(
    before: Seq<BusOp>,
    after: Seq<BusOp>,
    oscillator: Oscillator,
    io: IOConfiguration,
    queue: TxQueueConfiguration,
    result: Result<(), ConfigError>,
) -> bool {
    exists|at: Seq<BusOp>, step: Result<(), ConfigError>|
        {
            &&& #[trigger] is_comms_verified(before, at, step)
            &&& match step {
                Err(e) => after == at && result == Err::<(), ConfigError>(e),
                Ok(_) => is_configured_from_echo(at, after, oscillator, io, queue, result),
            }
        }
}

/// The steps of the sequence that follow the request for configuration mode.
pub open spec fn is_configured_from_request(
    before: Seq<BusOp>,
    after: Seq<BusOp>,
    oscillator: Oscillator,
    io: IOConfiguration,
    queue: TxQueueConfiguration,
    result: Result<(), ConfigError>,
) -> bool {
    exists|at: Seq<BusOp>, step: Result<(), ConfigError>|
        {
            &&& #[trigger] is_config_mode_awaited(before, at, step)
            &&& match step {
                Err(e) => after == at && result == Err::<(), ConfigError>(e),
                Ok(_) => is_configured_from_config_mode(at, after, oscillator, io, queue, result),
            }
        }
}

/// `after` is `before` followed by the whole configuration sequence: the request for
/// configuration mode, the wait for it, the echo test, the oscillator, the wait for the PLL
/// where it was asked for, the pins, and the transmit queue. The first step that fails ends
/// the sequence, and its failure is the result: nothing of a later step is on the record.
pub open spec fn is_configured(
    before: Seq<BusOp>,
    after: Seq<BusOp>,
    oscillator: Oscillator,
    io: IOConfiguration,
    queue: TxQueueConfiguration,
    result: Result<(), ConfigError>,
) -> bool {
    exists|at: Seq<BusOp>, requested: Result<(), ConfigError>|
        {
            &&& #[trigger] is_config_mode_requested(before, at, requested)
            &&& match requested {
                Err(e) => after == at && result == Err::<(), ConfigError>(e),
                Ok(_) => is_configured_from_request(at, after, oscillator, io, queue, result),
            }
        }
}

/// One more poll extends the record of a wait for configuration mode.
pub proof fn lemma_config_mode_poll(
    start: Seq<BusOp>,
    earlier: Seq<BusOp>,
    polls: nat,
    previous: u32,
    now: Seq<BusOp>,
    read: Result<u32, Error>,
)
    requires
        config_mode_polled(start, earlier, polls, previous),
        polls > 0 ==> !in_configuration_mode(previous),
        is_sfr_read(
            before_poll(earlier, (polls + 1) as nat),
            now,
            SFRAddress::C1CON.spec_value(),
            read,
        ),
    ensures
        config_mode_polled(start, now, (polls + 1) as nat, poll_word(read)),
{
    let next: nat = (polls + 1) as nat;
    assert(config_mode_polled(start, earlier, (next - 1) as nat, previous));
    assert(poll_is_due(next, previous));
}

/// One more round that read back what was written extends the record of an echo test.
pub proof fn lemma_echo_round(start: Seq<BusOp>, earlier: Seq<BusOp>, rounds: nat, now: Seq<BusOp>)
    requires
        rounds < 32,
        echoed(start, earlier, rounds),
        is_echo_round(earlier, now, rounds as u32, Ok(())),
    ensures
        echoed(start, now, (rounds + 1) as nat),
{
    let next: nat = (rounds + 1) as nat;
    assert(is_echo_round(earlier, now, (next - 1) as u32, Ok(())));
}

/// One more read that did not see the PLL locked, and the wait after it, extend the record
/// of a wait for the PLL.
pub proof fn lemma_pll_poll(
    start: Seq<BusOp>,
    earlier: Seq<BusOp>,
    polls: nat,
    read_at: Seq<BusOp>,
    word: u32,
)
    requires
        pll_waited(start, earlier, polls),
        is_sfr_read(earlier, read_at, SFRAddress::OSC.spec_value(), Ok(word)),
        !pll_ready(word),
    ensures
        pll_waited(
            start,
            read_at.push(BusOp::Delay { us: POLL_INTERVAL_US }),
            (polls + 1) as nat,
        ),
{
}

/// The request for configuration mode only adds to the record, leaves the line released, and
/// moves bytes only while the line is held.
pub proof fn lemma_config_mode_requested_extends(
    before: Seq<BusOp>,
    after: Seq<BusOp>,
    result: Result<(), ConfigError>,
)
    requires
        is_config_mode_requested(before, after, result),
    ensures
        before.is_prefix_of(after),
        idle(after),
        framed(before) ==> framed(after),
{
    let address = SFRAddress::C1CON.spec_value();
    let step = choose|step: Result<(), Error>| #[trigger]
        is_update(before, after, address, config_mode_change(), step);
    lemma_update_extends(before, after, address, config_mode_change(), step);
}

/// Polling for configuration mode only adds to the record, and leaves the line as it found
/// it: released.
pub proof fn lemma_config_mode_polled_extends(
    start: Seq<BusOp>,
    now: Seq<BusOp>,
    polls: nat,
    observed: u32,
)
    requires
        config_mode_polled(start, now, polls, observed),
    ensures
        start.is_prefix_of(now),
        idle(start) ==> idle(now),
        framed(start) ==> framed(now),
    decreases polls,
{
    if polls > 0 {
        let address = SFRAddress::C1CON.spec_value();
        let (earlier, previous, read) = choose|
            earlier: Seq<BusOp>,
            previous: u32,
            read: Result<u32, Error>,
        |
            #![trigger
                poll_is_due(polls, previous),
                is_sfr_read(before_poll(earlier, polls), now, address, read)]
            {
                &&& config_mode_polled(start, earlier, (polls - 1) as nat, previous)
                &&& poll_is_due(polls, previous)
                &&& is_sfr_read(before_poll(earlier, polls), now, address, read)
            };
        lemma_config_mode_polled_extends(start, earlier, (polls - 1) as nat, previous);
        let waited = before_poll(earlier, polls);
        if polls > 1 {
            lemma_push(earlier, BusOp::Delay { us: POLL_INTERVAL_US });
        }
        lemma_sfr_read_extends(waited, now, address, read);
        assert(earlier.is_prefix_of(waited));
        lemma_prefix_transitive(start, earlier, waited);
        lemma_prefix_transitive(start, waited, now);
    }
}

/// One round of the echo test only adds to the record, and leaves the line inactive.
pub proof fn lemma_echo_round_extends(
    before: Seq<BusOp>,
    after: Seq<BusOp>,
    bit: u32,
    result: Result<(), ConfigError>,
)
    requires
        is_echo_round(before, after, bit, result),
    ensures
        before.is_prefix_of(after),
        idle(after),
        framed(before) ==> framed(after),
{
    let payload = le_bytes(walking_bit(bit));
    let (mid, written) = choose|mid: Seq<BusOp>, written: Result<(), Error>|
        {
            &&& #[trigger] is_write(before, mid, RAM_START, payload, written)
            &&& match written {
                Err(e) => after == mid,
                Ok(_) => exists|received: Seq<u8>, read: Result<(), Error>| #[trigger]
                    is_read(mid, after, RAM_START, zeros(), received, read),
            }
        };
    lemma_write_extends(before, mid, RAM_START, payload, written);
    if framed(before) {
        lemma_write_framed(before, mid, RAM_START, payload, written);
    }
    if written is Ok {
        let (received, read) = choose|received: Seq<u8>, read: Result<(), Error>| #[trigger]
            is_read(mid, after, RAM_START, zeros(), received, read);
        lemma_read_extends(mid, after, RAM_START, zeros(), received, read);
        if framed(before) {
            lemma_read_framed(mid, after, RAM_START, zeros(), received, read);
        }
        lemma_prefix_transitive(before, mid, after);
    }
}

/// Echo rounds only add to the record, and leave the line as they found it: inactive.
pub proof fn lemma_echoed_extends(start: Seq<BusOp>, now: Seq<BusOp>, rounds: nat)
    requires
        echoed(start, now, rounds),
    ensures
        start.is_prefix_of(now),
        idle(start) ==> idle(now),
        framed(start) ==> framed(now),
    decreases rounds,
{
    if rounds > 0 {
        let earlier = choose|earlier: Seq<BusOp>|
            #![trigger is_echo_round(earlier, now, (rounds - 1) as u32, Ok(()))]
            {
                &&& echoed(start, earlier, (rounds - 1) as nat)
                &&& is_echo_round(earlier, now, (rounds - 1) as u32, Ok(()))
            };
        lemma_echoed_extends(start, earlier, (rounds - 1) as nat);
        lemma_echo_round_extends(earlier, now, (rounds - 1) as u32, Ok(()));
        lemma_prefix_transitive(start, earlier, now);
    }
}

/// The echo test only adds to the record, and leaves the line as it found it: inactive.
pub proof fn lemma_comms_verified_extends(
    before: Seq<BusOp>,
    after: Seq<BusOp>,
    result: Result<(), ConfigError>,
)
    requires
        is_comms_verified(before, after, result),
    ensures
        before.is_prefix_of(after),
        idle(before) ==> idle(after),
        framed(before) ==> framed(after),
{
    match result {
        Ok(_) => {
            lemma_echoed_extends(before, after, 32);
        },
        Err(e) => {
            let (rounds, earlier) = choose|rounds: nat, earlier: Seq<BusOp>|
                {
                    &&& rounds < 32
                    &&& #[trigger] echoed(before, earlier, rounds)
                    &&& is_echo_round(earlier, after, rounds as u32, Err(e))
                };
            lemma_echoed_extends(before, earlier, rounds);
            lemma_echo_round_extends(earlier, after, rounds as u32, Err(e));
            lemma_prefix_transitive(before, earlier, after);
        },
    }
}

/// Waiting for the PLL only adds to the record.
pub proof fn lemma_pll_waited_extends(start: Seq<BusOp>, now: Seq<BusOp>, polls: nat)
    requires
        pll_waited(start, now, polls),
    ensures
        start.is_prefix_of(now),
        framed(start) ==> framed(now),
    decreases polls,
{
    if polls > 0 {
        let address = SFRAddress::OSC.spec_value();
        let (earlier, read, word) = choose|earlier: Seq<BusOp>, read: Seq<BusOp>, word: u32|
            #![trigger is_sfr_read(earlier, read, address, Ok(word))]
            {
                &&& pll_waited(start, earlier, (polls - 1) as nat)
                &&& is_sfr_read(earlier, read, address, Ok(word))
                &&& now == read.push(BusOp::Delay { us: POLL_INTERVAL_US })
            };
        lemma_pll_waited_extends(start, earlier, (polls - 1) as nat);
        lemma_sfr_read_extends(earlier, read, address, Ok(word));
        lemma_push(read, BusOp::Delay { us: POLL_INTERVAL_US });
        assert(read.is_prefix_of(now));
        lemma_prefix_transitive(start, earlier, read);
        lemma_prefix_transitive(start, read, now);
    }
}

/// The wait for the PLL only adds to the record, and leaves the line inactive.
pub proof fn lemma_pll_awaited_extends(
    before: Seq<BusOp>,
    after: Seq<BusOp>,
    result: Result<(), ConfigError>,
)
    requires
        is_pll_awaited(before, after, result),
    ensures
        before.is_prefix_of(after),
        idle(after),
        framed(before) ==> framed(after),
{
    let address = SFRAddress::OSC.spec_value();
    let (polls, earlier, read) = choose|polls: nat, earlier: Seq<BusOp>, read: Result<u32, Error>|
        #![trigger pll_waited(before, earlier, polls), is_sfr_read(earlier, after, address, read)]
        {
            &&& pll_waited(before, earlier, polls)
            &&& is_sfr_read(earlier, after, address, read)
        };
    lemma_pll_waited_extends(before, earlier, polls);
    lemma_sfr_read_extends(earlier, after, address, read);
    lemma_prefix_transitive(before, earlier, after);
}

/// The programming of the transmit queue only adds to the record, and leaves the line
/// inactive.
pub proof fn lemma_tx_queue_programmed_extends(
    before: Seq<BusOp>,
    after: Seq<BusOp>,
    queue: TxQueueConfiguration,
    result: Result<(), ConfigError>,
)
    requires
        is_tx_queue_programmed(before, after, queue, result),
    ensures
        before.is_prefix_of(after),
        idle(after),
        framed(before) ==> framed(after),
{
    let queue_address = SFRAddress::C1TXQCON.spec_value();
    let address = SFRAddress::C1CON.spec_value();
    let (mid, updated) = choose|mid: Seq<BusOp>, updated: Result<(), Error>|
        {
            &&& #[trigger] is_update(before, mid, queue_address, tx_queue_change(queue), updated)
            &&& match updated {
                Err(e) => after == mid,
                Ok(_) => exists|reconciled: Result<(), Error>| #[trigger]
                    is_queue_reconciled(mid, after, uses_tx_queue(queue), reconciled),
            }
        };
    lemma_update_extends(before, mid, queue_address, tx_queue_change(queue), updated);
    if updated is Ok {
        let reconciled = choose|reconciled: Result<(), Error>| #[trigger]
            is_queue_reconciled(mid, after, uses_tx_queue(queue), reconciled);
        let (read_at, read) = choose|read_at: Seq<BusOp>, read: Result<u32, Error>|
            {
                &&& #[trigger] is_sfr_read(mid, read_at, address, read)
                &&& match read {
                    Err(e) => after == read_at,
                    Ok(word) => match queue_enable_correction(word, uses_tx_queue(queue)) {
                        None => after == read_at,
                        Some(corrected) => is_sfr_write(
                            read_at,
                            after,
                            address,
                            corrected,
                            reconciled,
                        ),
                    },
                }
            };
        lemma_sfr_read_extends(mid, read_at, address, read);
        if let Ok(word) = read {
            if let Some(corrected) = queue_enable_correction(word, uses_tx_queue(queue)) {
                lemma_write_extends(read_at, after, address, le_bytes(corrected), reconciled);
                if framed(before) {
                    lemma_write_framed(read_at, after, address, le_bytes(corrected), reconciled);
                }
            }
        }
        lemma_prefix_transitive(mid, read_at, after);
        lemma_prefix_transitive(before, mid, after);
    }
}

/// The configuration sequence, however it ends, only adds to the record and leaves the line
/// inactive: no path through it returns with the bus still claimed. Every byte that it moves
/// crosses the bus while the line is active.
pub proof fn lemma_configured_extends(
    before: Seq<BusOp>,
    after: Seq<BusOp>,
    oscillator: Oscillator,
    io: IOConfiguration,
    queue: TxQueueConfiguration,
    result: Result<(), ConfigError>,
)
    requires
        is_configured(before, after, oscillator, io, queue, result),
    ensures
        before.is_prefix_of(after),
        idle(after),
        framed(before) ==> framed(after),
{
    let (t1, requested) = choose|at: Seq<BusOp>, requested: Result<(), ConfigError>|
        {
            &&& #[trigger] is_config_mode_requested(before, at, requested)
            &&& match requested {
                Err(e) => after == at,
                Ok(_) => is_configured_from_request(at, after, oscillator, io, queue, result),
            }
        };
    lemma_config_mode_requested_extends(before, t1, requested);
    if requested is Ok {
        let (t2, awaited) = choose|at: Seq<BusOp>, step: Result<(), ConfigError>|
            {
                &&& #[trigger] is_config_mode_awaited(t1, at, step)
                &&& match step {
                    Err(e) => after == at,
                    Ok(_) => is_configured_from_config_mode(at, after, oscillator, io, queue, result),
                }
            };
        let (polls, observed) = choose|polls: nat, observed: u32| #[trigger]
            config_mode_polled(t1, t2, polls, observed);
        lemma_config_mode_polled_extends(t1, t2, polls, observed);
        lemma_prefix_transitive(before, t1, t2);
        if awaited is Ok {
            let (t3, verified) = choose|at: Seq<BusOp>, step: Result<(), ConfigError>|
                {
                    &&& #[trigger] is_comms_verified(t2, at, step)
                    &&& match step {
                        Err(e) => after == at,
                        Ok(_) => is_configured_from_echo(at, after, oscillator, io, queue, result),
                    }
                };
            lemma_comms_verified_extends(t2, t3, verified);
            lemma_prefix_transitive(before, t2, t3);
            if verified is Ok {
                let (t4, programmed) = choose|at: Seq<BusOp>, step: Result<(), Error>|
                    {
                        &&& #[trigger] is_update(
                            t3,
                            at,
                            SFRAddress::OSC.spec_value(),
                            oscillator_change(oscillator),
                            step,
                        )
                        &&& match step {
                            Err(e) => after == at,
                            Ok(_) => is_configured_from_oscillator(
                                at,
                                after,
                                oscillator,
                                io,
                                queue,
                                result,
                            ),
                        }
                    };
                lemma_update_extends(
                    t3,
                    t4,
                    SFRAddress::OSC.spec_value(),
                    oscillator_change(oscillator),
                    programmed,
                );
                lemma_prefix_transitive(before, t3, t4);
                if programmed is Ok {
                    lemma_configured_from_oscillator_extends(
                        t4,
                        after,
                        oscillator,
                        io,
                        queue,
                        result,
                    );
                    lemma_prefix_transitive(before, t4, after);
                }
            }
        }
    }
}

/// The steps that follow the programming of the oscillator only add to the record, and leave
/// the line inactive.
pub proof fn lemma_configured_from_oscillator_extends(
    before: Seq<BusOp>,
    after: Seq<BusOp>,
    oscillator: Oscillator,
    io: IOConfiguration,
    queue: TxQueueConfiguration,
    result: Result<(), ConfigError>,
)
    requires
        is_configured_from_oscillator(before, after, oscillator, io, queue, result),
    ensures
        before.is_prefix_of(after),
        idle(after),
        framed(before) ==> framed(after),
{
    if oscillator.pll == PLL::On {
        let (at, step) = choose|at: Seq<BusOp>, step: Result<(), ConfigError>|
            {
                &&& #[trigger] is_pll_awaited(before, at, step)
                &&& match step {
                    Err(e) => after == at,
                    Ok(_) => is_configured_from_pll(at, after, io, queue, result),
                }
            };
        lemma_pll_awaited_extends(before, at, step);
        if step is Ok {
            lemma_configured_from_pll_extends(at, after, io, queue, result);
            lemma_prefix_transitive(before, at, after);
        }
    } else {
        lemma_configured_from_pll_extends(before, after, io, queue, result);
    }
}

/// The last steps of the sequence only add to the record, and leave the line inactive.
pub proof fn lemma_configured_from_pll_extends(
    before: Seq<BusOp>,
    after: Seq<BusOp>,
    io: IOConfiguration,
    queue: TxQueueConfiguration,
    result: Result<(), ConfigError>,
)
    requires
        is_configured_from_pll(before, after, io, queue, result),
    ensures
        before.is_prefix_of(after),
        idle(after),
        framed(before) ==> framed(after),
{
    let (at, step) = choose|at: Seq<BusOp>, step: Result<(), Error>|
        {
            &&& #[trigger] is_update(before, at, SFRAddress::IOCON.spec_value(), io_change(io), step)
            &&& match step {
                Err(e) => after == at,
                Ok(_) => is_tx_queue_programmed(at, after, queue, result),
            }
        };
    lemma_update_extends(before, at, SFRAddress::IOCON.spec_value(), io_change(io), step);
    if step is Ok {
        lemma_tx_queue_programmed_extends(at, after, queue, result);
        lemma_prefix_transitive(before, at, after);
    }
}

/// The steps from the pins on never fail with a failed echo or an unlocked PLL: they fail
/// with the access that failed.
pub proof fn lemma_late_failures_are_access_failures(
    before: Seq<BusOp>,
    after: Seq<BusOp>,
    io: IOConfiguration,
    queue: TxQueueConfiguration,
    result: Result<(), ConfigError>,
)
    requires
        is_configured_from_pll(before, after, io, queue, result),
    ensures
        result is Ok || result->Err_0 is Other,
{
    let (at, step) = choose|at: Seq<BusOp>, step: Result<(), Error>|
        {
            &&& #[trigger] is_update(before, at, SFRAddress::IOCON.spec_value(), io_change(io), step)
            &&& match step {
                Err(e) => after == at && result == Err::<(), ConfigError>(ConfigError::Other(e)),
                Ok(_) => is_tx_queue_programmed(at, after, queue, result),
            }
        };
    if step is Ok {
        let (mid, updated) = choose|mid: Seq<BusOp>, updated: Result<(), Error>|
            {
                &&& #[trigger] is_update(
                    at,
                    mid,
                    SFRAddress::C1TXQCON.spec_value(),
                    tx_queue_change(queue),
                    updated,
                )
                &&& match updated {
                    Err(e) => after == mid && result == Err::<(), ConfigError>(
                        ConfigError::Other(e),
                    ),
                    Ok(_) => exists|reconciled: Result<(), Error>|
                        {
                            &&& #[trigger] is_queue_reconciled(
                                mid,
                                after,
                                uses_tx_queue(queue),
                                reconciled,
                            )
                            &&& result == as_config_result(reconciled)
                        },
                }
            };
    }
}

/// A configuration that fails with a failed echo ends with the echo test: the request for
/// configuration mode and the wait for it succeeded, and the record stops at the round that
/// read back a changed word. Nothing was read from or written to the oscillator, the pins or
/// the transmit queue.
pub proof fn lemma_failed_echo_ends_the_sequence(
    before: Seq<BusOp>,
    after: Seq<BusOp>,
    oscillator: Oscillator,
    io: IOConfiguration,
    queue: TxQueueConfiguration,
)
    requires
        is_configured(
            before,
            after,
            oscillator,
            io,
            queue,
            Err(ConfigError::SPIFailedRAMEcho),
        ),
    ensures
        exists|requested_at: Seq<BusOp>, entered_at: Seq<BusOp>|
            {
                &&& #[trigger] is_config_mode_requested(before, requested_at, Ok(()))
                &&& #[trigger] is_config_mode_awaited(requested_at, entered_at, Ok(()))
                &&& is_comms_verified(entered_at, after, Err(ConfigError::SPIFailedRAMEcho))
            },
{
    let result = Err::<(), ConfigError>(ConfigError::SPIFailedRAMEcho);
    let (t1, requested) = choose|at: Seq<BusOp>, requested: Result<(), ConfigError>|
        {
            &&& #[trigger] is_config_mode_requested(before, at, requested)
            &&& match requested {
                Err(e) => after == at && result == Err::<(), ConfigError>(e),
                Ok(_) => is_configured_from_request(at, after, oscillator, io, queue, result),
            }
        };
    lemma_request_fails_with_access(before, t1, requested);
    let (t2, awaited) = choose|at: Seq<BusOp>, step: Result<(), ConfigError>|
        {
            &&& #[trigger] is_config_mode_awaited(t1, at, step)
            &&& match step {
                Err(e) => after == at && result == Err::<(), ConfigError>(e),
                Ok(_) => is_configured_from_config_mode(at, after, oscillator, io, queue, result),
            }
        };
    let (t3, verified) = choose|at: Seq<BusOp>, step: Result<(), ConfigError>|
        {
            &&& #[trigger] is_comms_verified(t2, at, step)
            &&& match step {
                Err(e) => after == at && result == Err::<(), ConfigError>(e),
                Ok(_) => is_configured_from_echo(at, after, oscillator, io, queue, result),
            }
        };
    if verified is Ok {
        lemma_failures_after_echo(t3, after, oscillator, io, queue, result);
    }
    assert(verified == result);
    assert(awaited == Ok::<(), ConfigError>(()));
}

/// The request for configuration mode fails only with the access that failed.
pub proof fn lemma_request_fails_with_access(
    before: Seq<BusOp>,
    after: Seq<BusOp>,
    result: Result<(), ConfigError>,
)
    requires
        is_config_mode_requested(before, after, result),
    ensures
        result == Ok::<(), ConfigError>(()) || result->Err_0 is Other,
{
}

/// A round of the echo test fails only with the access that failed or with a failed echo.
pub proof fn lemma_echo_round_failures(
    before: Seq<BusOp>,
    after: Seq<BusOp>,
    bit: u32,
    result: Result<(), ConfigError>,
)
    requires
        is_echo_round(before, after, bit, result),
    ensures
        result == Ok::<(), ConfigError>(()) || result->Err_0 is Other || result == Err::<
            (),
            ConfigError,
        >(ConfigError::SPIFailedRAMEcho),
{
}

/// The steps that follow the echo test fail only with the access that failed or with a PLL
/// that did not lock.
pub proof fn lemma_failures_after_echo(
    before: Seq<BusOp>,
    after: Seq<BusOp>,
    oscillator: Oscillator,
    io: IOConfiguration,
    queue: TxQueueConfiguration,
    result: Result<(), ConfigError>,
)
    requires
        is_configured_from_echo(before, after, oscillator, io, queue, result),
    ensures
        result is Ok || result->Err_0 is Other || result == Err::<(), ConfigError>(
            ConfigError::PLLNotReady,
        ),
{
    let (t4, programmed) = choose|at: Seq<BusOp>, step: Result<(), Error>|
        {
            &&& #[trigger] is_update(
                before,
                at,
                SFRAddress::OSC.spec_value(),
                oscillator_change(oscillator),
                step,
            )
            &&& match step {
                Err(e) => after == at && result == Err::<(), ConfigError>(ConfigError::Other(e)),
                Ok(_) => is_configured_from_oscillator(at, after, oscillator, io, queue, result),
            }
        };
    if programmed is Ok {
        if oscillator.pll == PLL::On {
            let (t5, locked) = choose|at: Seq<BusOp>, step: Result<(), ConfigError>|
                {
                    &&& #[trigger] is_pll_awaited(t4, at, step)
                    &&& match step {
                        Err(e) => after == at && result == Err::<(), ConfigError>(e),
                        Ok(_) => is_configured_from_pll(at, after, io, queue, result),
                    }
                };
            if locked is Ok {
                lemma_late_failures_are_access_failures(t5, after, io, queue, result);
            }
        } else {
            lemma_late_failures_are_access_failures(t4, after, io, queue, result);
        }
    }
}

/// Once configuration mode was seen, nothing that follows fails with a timeout.
pub proof fn lemma_no_timeout_after_config_mode(
    before: Seq<BusOp>,
    after: Seq<BusOp>,
    oscillator: Oscillator,
    io: IOConfiguration,
    queue: TxQueueConfiguration,
    result: Result<(), ConfigError>,
)
    requires
        is_configured_from_config_mode(before, after, oscillator, io, queue, result),
    ensures
        result != Err::<(), ConfigError>(ConfigError::ConfigurationModeTimeout),
{
    let (t3, verified) = choose|at: Seq<BusOp>, step: Result<(), ConfigError>|
        {
            &&& #[trigger] is_comms_verified(before, at, step)
            &&& match step {
                Err(e) => after == at && result == Err::<(), ConfigError>(e),
                Ok(_) => is_configured_from_echo(at, after, oscillator, io, queue, result),
            }
        };
    match verified {
        Ok(_) => {
            lemma_failures_after_echo(t3, after, oscillator, io, queue, result);
        },
        Err(e) => {
            let (rounds, earlier) = choose|rounds: nat, earlier: Seq<BusOp>|
                {
                    &&& rounds < 32
                    &&& #[trigger] echoed(before, earlier, rounds)
                    &&& is_echo_round(earlier, t3, rounds as u32, Err(e))
                };
            lemma_echo_round_failures(earlier, t3, rounds as u32, Err(e));
        },
    }
}

/// The wait for configuration mode ends in one of two ways. It succeeds with the first poll
/// that sees configuration mode, which is one of the first five; or it times out after the
/// fifth poll, none of the five having seen it.
pub proof fn lemma_wait_outcomes(
    before: Seq<BusOp>,
    after: Seq<BusOp>,
    result: Result<(), ConfigError>,
)
    requires
        is_config_mode_awaited(before, after, result),
    ensures
        result == Ok::<(), ConfigError>(()) ==> exists|polls: nat, observed: u32|
            {
                &&& 1 <= polls <= CONFIG_MODE_ATTEMPTS
                &&& #[trigger] config_mode_polled(before, after, polls, observed)
                &&& in_configuration_mode(observed)
            },
        result != Ok::<(), ConfigError>(()) ==> result == Err::<(), ConfigError>(
            ConfigError::ConfigurationModeTimeout,
        ) && exists|observed: u32|
            {
                &&& #[trigger] config_mode_polled(
                    before,
                    after,
                    CONFIG_MODE_ATTEMPTS as nat,
                    observed,
                )
                &&& !in_configuration_mode(observed)
            },
{
    let (polls, observed) = choose|polls: nat, observed: u32|
        {
            &&& 1 <= polls <= CONFIG_MODE_ATTEMPTS
            &&& #[trigger] config_mode_polled(before, after, polls, observed)
            &&& in_configuration_mode(observed) ==> result == Ok::<(), ConfigError>(())
            &&& !in_configuration_mode(observed) ==> polls == CONFIG_MODE_ATTEMPTS && result
                == Err::<(), ConfigError>(ConfigError::ConfigurationModeTimeout)
        };
    if !in_configuration_mode(observed) {
        assert(config_mode_polled(before, after, CONFIG_MODE_ATTEMPTS as nat, observed));
    }
}

/// A configuration that times out ends with the wait for configuration mode: the request
/// went through, five polls followed with a wait between any two, none of them saw
/// configuration mode, and the record stops at the fifth. Nothing was read from or written to
/// the RAM, the oscillator, the pins or the transmit queue.
pub proof fn lemma_timeout_ends_the_sequence(
    before: Seq<BusOp>,
    after: Seq<BusOp>,
    oscillator: Oscillator,
    io: IOConfiguration,
    queue: TxQueueConfiguration,
)
    requires
        is_configured(
            before,
            after,
            oscillator,
            io,
            queue,
            Err(ConfigError::ConfigurationModeTimeout),
        ),
    ensures
        exists|requested_at: Seq<BusOp>, observed: u32|
            {
                &&& #[trigger] is_config_mode_requested(before, requested_at, Ok(()))
                &&& #[trigger] config_mode_polled(
                    requested_at,
                    after,
                    CONFIG_MODE_ATTEMPTS as nat,
                    observed,
                )
                &&& !in_configuration_mode(observed)
            },
{
    let result = Err::<(), ConfigError>(ConfigError::ConfigurationModeTimeout);
    let (t1, requested) = choose|at: Seq<BusOp>, requested: Result<(), ConfigError>|
        {
            &&& #[trigger] is_config_mode_requested(before, at, requested)
            &&& match requested {
                Err(e) => after == at && result == Err::<(), ConfigError>(e),
                Ok(_) => is_configured_from_request(at, after, oscillator, io, queue, result),
            }
        };
    lemma_request_fails_with_access(before, t1, requested);
    let (t2, awaited) = choose|at: Seq<BusOp>, step: Result<(), ConfigError>|
        {
            &&& #[trigger] is_config_mode_awaited(t1, at, step)
            &&& match step {
                Err(e) => after == at && result == Err::<(), ConfigError>(e),
                Ok(_) => is_configured_from_config_mode(at, after, oscillator, io, queue, result),
            }
        };
    if awaited is Ok {
        lemma_no_timeout_after_config_mode(t2, after, oscillator, io, queue, result);
    }
    lemma_wait_outcomes(t1, t2, awaited);
    let observed = choose|observed: u32|
        {
            &&& #[trigger] config_mode_polled(t1, t2, CONFIG_MODE_ATTEMPTS as nat, observed)
            &&& !in_configuration_mode(observed)
        };
    assert(is_config_mode_requested(before, t1, Ok(())));
    assert(config_mode_polled(t1, after, CONFIG_MODE_ATTEMPTS as nat, observed));
}

/// A configuration that gets as far as the echo test saw configuration mode: the request
/// went through, and the wait ended with the first poll that saw it, one of the first five.
/// Any result but a timeout or the failed access of the request says so.
pub proof fn lemma_past_the_wait(
    before: Seq<BusOp>,
    after: Seq<BusOp>,
    oscillator: Oscillator,
    io: IOConfiguration,
    queue: TxQueueConfiguration,
    result: Result<(), ConfigError>,
)
    requires
        is_configured(before, after, oscillator, io, queue, result),
        result is Ok || result == Err::<(), ConfigError>(ConfigError::SPIFailedRAMEcho) || result
            == Err::<(), ConfigError>(ConfigError::PLLNotReady),
    ensures
        exists|requested_at: Seq<BusOp>, entered_at: Seq<BusOp>, polls: nat, observed: u32|
            {
                &&& #[trigger] is_config_mode_requested(before, requested_at, Ok(()))
                &&& 1 <= polls <= CONFIG_MODE_ATTEMPTS
                &&& #[trigger] config_mode_polled(requested_at, entered_at, polls, observed)
                &&& in_configuration_mode(observed)
                &&& is_configured_from_config_mode(
                    entered_at,
                    after,
                    oscillator,
                    io,
                    queue,
                    result,
                )
            },
{
    let (t1, requested) = choose|at: Seq<BusOp>, requested: Result<(), ConfigError>|
        {
            &&& #[trigger] is_config_mode_requested(before, at, requested)
            &&& match requested {
                Err(e) => after == at && result == Err::<(), ConfigError>(e),
                Ok(_) => is_configured_from_request(at, after, oscillator, io, queue, result),
            }
        };
    lemma_request_fails_with_access(before, t1, requested);
    let (t2, awaited) = choose|at: Seq<BusOp>, step: Result<(), ConfigError>|
        {
            &&& #[trigger] is_config_mode_awaited(t1, at, step)
            &&& match step {
                Err(e) => after == at && result == Err::<(), ConfigError>(e),
                Ok(_) => is_configured_from_config_mode(at, after, oscillator, io, queue, result),
            }
        };
    lemma_wait_outcomes(t1, t2, awaited);
    let (polls, observed) = choose|polls: nat, observed: u32|
        {
            &&& 1 <= polls <= CONFIG_MODE_ATTEMPTS
            &&& #[trigger] config_mode_polled(t1, t2, polls, observed)
            &&& in_configuration_mode(observed)
        };
    assert(is_config_mode_requested(before, t1, Ok(())));
}

/// An echo test that fails with a failed echo passed the rounds for the bits below some bit,
/// wrote the word with only that bit set, read four bytes back without a failure of the bus,
/// and found another word. The record ends there: no round follows for a higher bit.
pub proof fn lemma_failed_echo_is_a_changed_word(before: Seq<BusOp>, after: Seq<BusOp>)
    requires
        is_comms_verified(before, after, Err(ConfigError::SPIFailedRAMEcho)),
    ensures
        exists|bit: nat, earlier: Seq<BusOp>, mid: Seq<BusOp>, received: Seq<u8>|
            {
                &&& bit < 32
                &&& #[trigger] echoed(before, earlier, bit)
                &&& is_write(
                    earlier,
                    mid,
                    RAM_START,
                    le_bytes(walking_bit(bit as u32)),
                    Ok::<(), Error>(()),
                )
                &&& #[trigger] is_read(
                    mid,
                    after,
                    RAM_START,
                    zeros(),
                    received,
                    Ok::<(), Error>(()),
                )
                &&& received.len() == 4
                &&& le_word(received) != walking_bit(bit as u32)
            },
{
    let failure = ConfigError::SPIFailedRAMEcho;
    let (rounds, earlier) = choose|rounds: nat, earlier: Seq<BusOp>|
        {
            &&& rounds < 32
            &&& #[trigger] echoed(before, earlier, rounds)
            &&& is_echo_round(earlier, after, rounds as u32, Err(failure))
        };
    let bit = rounds as u32;
    let (mid, written) = choose|mid: Seq<BusOp>, written: Result<(), Error>|
        {
            &&& #[trigger] is_write(earlier, mid, RAM_START, le_bytes(walking_bit(bit)), written)
            &&& match written {
                Err(e) => after == mid && Err::<(), ConfigError>(failure) == Err::<
                    (),
                    ConfigError,
                >(ConfigError::Other(e)),
                Ok(_) => exists|received: Seq<u8>, read: Result<(), Error>|
                    {
                        &&& received.len() == 4
                        &&& #[trigger] is_read(mid, after, RAM_START, zeros(), received, read)
                        &&& Err::<(), ConfigError>(failure) == match read {
                            Err(e) => Err::<(), ConfigError>(ConfigError::Other(e)),
                            Ok(_) => if le_word(received) == walking_bit(bit) {
                                Ok::<(), ConfigError>(())
                            } else {
                                Err::<(), ConfigError>(ConfigError::SPIFailedRAMEcho)
                            },
                        }
                    },
            }
        };
    let (received, read) = choose|received: Seq<u8>, read: Result<(), Error>|
        {
            &&& received.len() == 4
            &&& #[trigger] is_read(mid, after, RAM_START, zeros(), received, read)
            &&& Err::<(), ConfigError>(failure) == match read {
                Err(e) => Err::<(), ConfigError>(ConfigError::Other(e)),
                Ok(_) => if le_word(received) == walking_bit(bit) {
                    Ok::<(), ConfigError>(())
                } else {
                    Err::<(), ConfigError>(ConfigError::SPIFailedRAMEcho)
                },
            }
        };
    lemma_write_extends(earlier, mid, RAM_START, le_bytes(walking_bit(bit)), written);
    lemma_read_extends(mid, after, RAM_START, zeros(), received, read);
    assert(written == Ok::<(), Error>(()));
    assert(read == Ok::<(), Error>(()));
    assert(echoed(before, earlier, rounds));
}

/// What the control register of a transmit queue that is not used is written back as: the
/// depth and the payload size, bits 31..=24, as they were read; the retransmission attempts
/// and the low five bits of the priority as the settings ask.
pub open spec fn unused_queue_change(queue: TxQueueConfiguration) -> spec_fn(u32, u32) -> bool {
    |word: u32, written: u32|
        {
            &&& written & 0xFF00_0000 == word & 0xFF00_0000
            &&& field(written, 21, 2) == queue.retransmission_attempts.spec_code() as u32
            &&& field(written, 16, 5) == (queue.message_priority & 0x1F) as u32
        }
}

/// The word written for a queue that is not used is such a word.
pub proof fn lemma_unused_queue_word(word: u32, queue: TxQueueConfiguration)
    requires
        queue.fifo_size == 0,
    ensures
        unused_queue_change(queue)(word, tx_queue_word(word, queue)),
{
    let attempts = queue.retransmission_attempts.spec_code() as u32;
    let priority = queue.message_priority;
    let wide = priority as u32;
    let written = with_field(with_field(word, 21, 2, attempts), 16, 5, wide);
    assert(written & 0xFF00_0000 == word & 0xFF00_0000 && field(written, 21, 2) == attempts & 3
        && field(written, 16, 5) == wide & 0x1F) by (bit_vector)
        requires
            written == with_field(with_field(word, 21, 2, attempts), 16, 5, wide),
    ;
    assert(attempts <= 3 ==> attempts & 3 == attempts) by (bit_vector);
    assert((priority & 0x1F) as u32 == wide & 0x1F) by (bit_vector)
        requires
            wide == priority as u32,
    ;
}

/// A read-modify-write that keeps to one rule for the word written keeps to every rule that
/// the first implies.
pub proof fn lemma_update_weakens(
    before: Seq<BusOp>,
    after: Seq<BusOp>,
    address: u16,
    change: spec_fn(u32, u32) -> bool,
    weaker: spec_fn(u32, u32) -> bool,
    result: Result<(), Error>,
)
    requires
        is_update(before, after, address, change, result),
        forall|word: u32, written: u32| #[trigger] change(word, written) ==> weaker(word, written),
    ensures
        is_update(before, after, address, weaker, result),
{
    let (mid, read) = choose|mid: Seq<BusOp>, read: Result<u32, Error>|
        {
            &&& #[trigger] is_sfr_read(before, mid, address, read)
            &&& match read {
                Err(e) => after == mid && result == Err::<(), Error>(e),
                Ok(word) => exists|written: u32|
                    change(word, written) && #[trigger] is_sfr_write(
                        mid,
                        after,
                        address,
                        written,
                        result,
                    ),
            }
        };
    if let Ok(word) = read {
        let written = choose|written: u32|
            change(word, written) && #[trigger] is_sfr_write(mid, after, address, written, result);
        assert(weaker(word, written));
    }
}

/// The corrective word has the queue-enable bit as the settings ask, the store bit clear, and
/// every other bit as it was read.
pub proof fn lemma_correction_word(word: u32, in_use: bool)
    requires
        flag(word, 20) != in_use,
    ensures
        queue_enable_correction(word, in_use) is Some,
        flag(queue_enable_correction(word, in_use)->Some_0, 20) == in_use,
        !flag(queue_enable_correction(word, in_use)->Some_0, 19),
        queue_enable_correction(word, in_use)->Some_0 & 0xFFE7_FFFF == word & 0xFFE7_FFFF,
{
    let bit: u32 = if in_use {
        1
    } else {
        0
    };
    let corrected = with_field(with_field(word, 20, 1, bit), 19, 1, 0);
    assert(field(corrected, 20, 1) == bit && field(corrected, 19, 1) == 0 && corrected
        & 0xFFE7_FFFF == word & 0xFFE7_FFFF) by (bit_vector)
        requires
            bit <= 1,
            corrected == with_field(with_field(word, 20, 1, bit), 19, 1, 0),
    ;
}

/// The programming of a transmit queue that is not used leaves depth and payload size as the
/// hardware holds them, and then reconciles the queue-enable bit with "not used". The one
/// write to the control register of the queue keeps bits 31..=24 as read.
pub proof fn lemma_unused_queue_is_left_alone(
    before: Seq<BusOp>,
    after: Seq<BusOp>,
    queue: TxQueueConfiguration,
    result: Result<(), ConfigError>,
)
    requires
        is_tx_queue_programmed(before, after, queue, result),
        queue.fifo_size == 0,
    ensures
        exists|mid: Seq<BusOp>, updated: Result<(), Error>|
            {
                &&& #[trigger] is_update(
                    before,
                    mid,
                    SFRAddress::C1TXQCON.spec_value(),
                    unused_queue_change(queue),
                    updated,
                )
                &&& match updated {
                    Err(e) => after == mid && result == Err::<(), ConfigError>(
                        ConfigError::Other(e),
                    ),
                    Ok(_) => exists|reconciled: Result<(), Error>|
                        {
                            &&& #[trigger] is_queue_reconciled(mid, after, false, reconciled)
                            &&& result == as_config_result(reconciled)
                        },
                }
            },
{
    let address = SFRAddress::C1TXQCON.spec_value();
    let (mid, updated) = choose|mid: Seq<BusOp>, updated: Result<(), Error>|
        {
            &&& #[trigger] is_update(before, mid, address, tx_queue_change(queue), updated)
            &&& match updated {
                Err(e) => after == mid && result == Err::<(), ConfigError>(ConfigError::Other(e)),
                Ok(_) => exists|reconciled: Result<(), Error>|
                    {
                        &&& #[trigger] is_queue_reconciled(
                            mid,
                            after,
                            uses_tx_queue(queue),
                            reconciled,
                        )
                        &&& result == as_config_result(reconciled)
                    },
            }
        };
    assert forall|word: u32, written: u32| #[trigger]
        tx_queue_change(queue)(word, written) implies unused_queue_change(queue)(word, written) by {
        lemma_unused_queue_word(word, queue);
    }
    lemma_update_weakens(
        before,
        mid,
        address,
        tx_queue_change(queue),
        unused_queue_change(queue),
        updated,
    );
}

/// The reconciliation of the queue-enable bit reads the CAN control register once. Where the
/// bit is as the settings ask, nothing is written. Where it is not, one write follows, of the
/// word read with the bit as asked and the store bit clear.
pub proof fn lemma_reconciliation_cases(
    before: Seq<BusOp>,
    after: Seq<BusOp>,
    in_use: bool,
    result: Result<(), Error>,
)
    requires
        is_queue_reconciled(before, after, in_use, result),
    ensures
        exists|read_at: Seq<BusOp>, read: Result<u32, Error>|
            {
                &&& #[trigger] is_sfr_read(before, read_at, SFRAddress::C1CON.spec_value(), read)
                &&& match read {
                    Err(e) => after == read_at && result == Err::<(), Error>(e),
                    Ok(word) => if flag(word, 20) == in_use {
                        after == read_at && result == Ok::<(), Error>(())
                    } else {
                        exists|corrected: u32|
                            {
                                &&& flag(corrected, 20) == in_use
                                &&& !flag(corrected, 19)
                                &&& corrected & 0xFFE7_FFFF == word & 0xFFE7_FFFF
                                &&& #[trigger] is_sfr_write(
                                    read_at,
                                    after,
                                    SFRAddress::C1CON.spec_value(),
                                    corrected,
                                    result,
                                )
                            }
                    },
                }
            },
{
    let address = SFRAddress::C1CON.spec_value();
    let (read_at, read) = choose|read_at: Seq<BusOp>, read: Result<u32, Error>|
        {
            &&& #[trigger] is_sfr_read(before, read_at, address, read)
            &&& match read {
                Err(e) => after == read_at && result == Err::<(), Error>(e),
                Ok(word) => match queue_enable_correction(word, in_use) {
                    None => after == read_at && result == Ok::<(), Error>(()),
                    Some(corrected) => is_sfr_write(read_at, after, address, corrected, result),
                },
            }
        };
    if let Ok(word) = read {
        if flag(word, 20) != in_use {
            lemma_correction_word(word, in_use);
            let corrected = queue_enable_correction(word, in_use)->Some_0;
            assert(is_sfr_write(read_at, after, address, corrected, result));
        }
    }
}

/// A configuration that succeeds ends with the programming of the transmit queue, and that
/// step succeeded.
pub proof fn lemma_success_ends_with_the_queue(
    before: Seq<BusOp>,
    after: Seq<BusOp>,
    oscillator: Oscillator,
    io: IOConfiguration,
    queue: TxQueueConfiguration,
)
    requires
        is_configured(before, after, oscillator, io, queue, Ok(())),
    ensures
        exists|at: Seq<BusOp>|
            before.is_prefix_of(at) && #[trigger] is_tx_queue_programmed(at, after, queue, Ok(())),
{
    let result = Ok::<(), ConfigError>(());
    let (t1, requested) = choose|at: Seq<BusOp>, requested: Result<(), ConfigError>|
        {
            &&& #[trigger] is_config_mode_requested(before, at, requested)
            &&& match requested {
                Err(e) => after == at && result == Err::<(), ConfigError>(e),
                Ok(_) => is_configured_from_request(at, after, oscillator, io, queue, result),
            }
        };
    lemma_config_mode_requested_extends(before, t1, requested);
    let (t2, awaited) = choose|at: Seq<BusOp>, step: Result<(), ConfigError>|
        {
            &&& #[trigger] is_config_mode_awaited(t1, at, step)
            &&& match step {
                Err(e) => after == at && result == Err::<(), ConfigError>(e),
                Ok(_) => is_configured_from_config_mode(at, after, oscillator, io, queue, result),
            }
        };
    let (polls, observed) = choose|polls: nat, observed: u32| #[trigger]
        config_mode_polled(t1, t2, polls, observed);
    lemma_config_mode_polled_extends(t1, t2, polls, observed);
    lemma_prefix_transitive(before, t1, t2);
    let (t3, verified) = choose|at: Seq<BusOp>, step: Result<(), ConfigError>|
        {
            &&& #[trigger] is_comms_verified(t2, at, step)
            &&& match step {
                Err(e) => after == at && result == Err::<(), ConfigError>(e),
                Ok(_) => is_configured_from_echo(at, after, oscillator, io, queue, result),
            }
        };
    lemma_comms_verified_extends(t2, t3, verified);
    lemma_prefix_transitive(before, t2, t3);
    let (t4, programmed) = choose|at: Seq<BusOp>, step: Result<(), Error>|
        {
            &&& #[trigger] is_update(
                t3,
                at,
                SFRAddress::OSC.spec_value(),
                oscillator_change(oscillator),
                step,
            )
            &&& match step {
                Err(e) => after == at && result == Err::<(), ConfigError>(ConfigError::Other(e)),
                Ok(_) => is_configured_from_oscillator(at, after, oscillator, io, queue, result),
            }
        };
    lemma_update_extends(t3, t4, SFRAddress::OSC.spec_value(), oscillator_change(oscillator), programmed);
    lemma_prefix_transitive(before, t3, t4);
    let t5 = if oscillator.pll == PLL::On {
        let (at, locked) = choose|at: Seq<BusOp>, step: Result<(), ConfigError>|
            {
                &&& #[trigger] is_pll_awaited(t4, at, step)
                &&& match step {
                    Err(e) => after == at && result == Err::<(), ConfigError>(e),
                    Ok(_) => is_configured_from_pll(at, after, io, queue, result),
                }
            };
        lemma_pll_awaited_extends(t4, at, locked);
        lemma_prefix_transitive(before, t4, at);
        at
    } else {
        t4
    };
    let (t6, pins) = choose|at: Seq<BusOp>, step: Result<(), Error>|
        {
            &&& #[trigger] is_update(t5, at, SFRAddress::IOCON.spec_value(), io_change(io), step)
            &&& match step {
                Err(e) => after == at && result == Err::<(), ConfigError>(ConfigError::Other(e)),
                Ok(_) => is_tx_queue_programmed(at, after, queue, result),
            }
        };
    lemma_update_extends(t5, t6, SFRAddress::IOCON.spec_value(), io_change(io), pins);
    lemma_prefix_transitive(before, t5, t6);
    assert(is_tx_queue_programmed(t6, after, queue, Ok(())));
}

} // verus!
