//! The bus as the driver sees it: a record of every command given to the chip-select line, to
//! the byte transport and to the delay provider, in the order given, and the shapes that the
//! record takes for each kind of transaction.
use crate::bits::{le_bytes, le_word};
use crate::generic::{instruction_bytes, instruction_word, OpCode, SFRAddress};
use crate::spi::Error;
use vstd::prelude::*;

verus! {

/// One command that the driver gave, with what came back.
pub enum BusOp {
    /// The chip-select pin was told to drive the line inactive (high); `ok` is whether the pin
    /// took the command.
    Release { ok: bool },
    /// The chip-select pin was told to drive the line active (low); `ok` is whether the pin
    /// took the command.
    Claim { ok: bool },
    /// `data` was handed to the transport for writing; `ok` is whether the transport took it.
    Write { data: Seq<u8>, ok: bool },
    /// `sent` was handed to the transport for a full-duplex transfer, which left `received` in
    /// its place; `ok` is whether the transport reported success.
    Transfer { sent: Seq<u8>, received: Seq<u8>, ok: bool },
    /// The delay provider was asked to block for `us` microseconds.
    Delay { us: u32 },
}

/// What the chip-select pin answered while the driver claimed the line for a transaction.
#[derive(Clone, Copy, Debug, PartialEq, Eq, Structural)]
pub struct LineClaim {
    /// The pin said that the line was active, or could not say: the line was released first.
    pub released_first: bool,
    /// The pin took that release.
    pub release_ok: bool,
    /// The pin took the claim.
    pub claim_ok: bool,
}

impl LineClaim {
    /// Whether the driver holds the line: the pin took every command that claiming it needed.
    pub open spec fn held(self) -> bool {
        (self.released_first ==> self.release_ok) && self.claim_ok
    }

    /// Whether the driver holds the line.
    pub fn is_held(&self) -> (held: bool)
        ensures
            held == self.held(),
    {
        (!self.released_first || self.release_ok) && self.claim_ok
    }
}

/// The first address of the chip's RAM.
pub const RAM_START: u16 = 0x400;

/// The last address of the chip's RAM.
pub const RAM_END: u16 = 0xBFF;

/// The accesses that the driver lets through to the bus: they start inside the RAM window and
/// the sum of address and length does not pass the window's last address.
pub open spec fn ram_access_allowed(address: u16, len: usize) -> bool {
    RAM_START <= address && address + len <= RAM_END
}

/// Whether a record ends with a release of the line: nothing was done since the driver let go
/// of it.
pub open spec fn idle(trace: Seq<BusOp>) -> bool {
    trace.len() > 0 && trace.last() is Release
}

/// Whether the driver holds the line at the end of a record: the last command given to the
/// pin was a claim, and the pin took it.
pub open spec fn claimed(trace: Seq<BusOp>) -> bool
    decreases trace.len(),
{
    if trace.len() == 0 {
        false
    } else {
        match trace.last() {
            BusOp::Claim { ok } => ok,
            BusOp::Release { .. } => false,
            _ => claimed(trace.drop_last()),
        }
    }
}

/// Whether a command moves bytes over the bus.
pub open spec fn is_traffic(op: BusOp) -> bool {
    op is Write || op is Transfer
}

/// Whether every byte on a record crossed the bus while the line was active.
pub open spec fn framed(trace: Seq<BusOp>) -> bool
    decreases trace.len(),
{
    if trace.len() == 0 {
        true
    } else {
        framed(trace.drop_last()) && (is_traffic(trace.last()) ==> claimed(trace.drop_last()))
    }
}

/// What one more command does to the state of the line and to the framing of the record.
pub proof fn lemma_push(trace: Seq<BusOp>, op: BusOp)
    ensures
        claimed(trace.push(op)) == match op {
            BusOp::Claim { ok } => ok,
            BusOp::Release { .. } => false,
            _ => claimed(trace),
        },
        framed(trace.push(op)) == (framed(trace) && (is_traffic(op) ==> claimed(trace))),
{
    assert(trace.push(op).drop_last() =~= trace);
    assert(trace.push(op).last() == op);
}

/// The record after the driver tried to claim the line. A line that is active, or cannot say,
/// is released first, so that the chip sees a fresh active edge; where the pin refuses that
/// release, no claim is given.
pub open spec fn claim_then(trace: Seq<BusOp>, claim: LineClaim) -> Seq<BusOp> {
    if claim.released_first {
        if claim.release_ok {
            trace.push(BusOp::Release { ok: true }).push(BusOp::Claim { ok: claim.claim_ok })
        } else {
            trace.push(BusOp::Release { ok: false })
        }
    } else {
        trace.push(BusOp::Claim { ok: claim.claim_ok })
    }
}

/// The command that sends the instruction for `op` at `address`.
pub open spec fn instruction_op(op: OpCode, address: u16, ok: bool) -> BusOp {
    BusOp::Write { data: instruction_bytes(instruction_word(op, address)), ok }
}

/// The record after a write transaction: the claim; then, only if the line is held, the
/// instruction; then, only if that went through, the payload; then the release, whatever
/// happened before.
pub open spec fn write_trace(
    trace: Seq<BusOp>,
    claim: LineClaim,
    address: u16,
    payload: Seq<u8>,
    instruction_ok: bool,
    payload_ok: bool,
    end_ok: bool,
) -> Seq<BusOp> {
    let start = claim_then(trace, claim);
    let done = if !claim.held() {
        start
    } else if !instruction_ok {
        start.push(instruction_op(OpCode::Write, address, false))
    } else {
        start.push(instruction_op(OpCode::Write, address, true)).push(
            BusOp::Write { data: payload, ok: payload_ok },
        )
    };
    done.push(BusOp::Release { ok: end_ok })
}

/// The record after a read transaction: the claim; then, only if the line is held, the
/// instruction; then, only if that went through, the transfer; then the release, whatever
/// happened before.
pub open spec fn read_trace(
    trace: Seq<BusOp>,
    claim: LineClaim,
    address: u16,
    sent: Seq<u8>,
    received: Seq<u8>,
    instruction_ok: bool,
    transfer_ok: bool,
    end_ok: bool,
) -> Seq<BusOp> {
    let start = claim_then(trace, claim);
    let done = if !claim.held() {
        start
    } else if !instruction_ok {
        start.push(instruction_op(OpCode::Read, address, false))
    } else {
        start.push(instruction_op(OpCode::Read, address, true)).push(
            BusOp::Transfer { sent, received, ok: transfer_ok },
        )
    };
    done.push(BusOp::Release { ok: end_ok })
}

/// The record after a reset: the claim; then, only if the line is held, the reset
/// instruction; then the release.
pub open spec fn reset_trace(
    trace: Seq<BusOp>,
    claim: LineClaim,
    instruction_ok: bool,
    end_ok: bool,
) -> Seq<BusOp> {
    let start = claim_then(trace, claim);
    let done = if !claim.held() {
        start
    } else {
        start.push(instruction_op(OpCode::Reset, 0, instruction_ok))
    };
    done.push(BusOp::Release { ok: end_ok })
}

/// What a transaction reports: the first thing that went wrong. A pin that refused the claim
/// is `Other`, and nothing was sent; a refused instruction is `SPIWrite`; a failed payload or
/// transfer is `payload_failure`; a pin that refused the last release is `Other`.
pub open spec fn transaction_result(
    claim: LineClaim,
    instruction_ok: bool,
    payload_ok: bool,
    payload_failure: Error,
    end_ok: bool,
) -> Result<(), Error> {
    if !claim.held() {
        Err(Error::Other)
    } else if !instruction_ok {
        Err(Error::SPIWrite)
    } else if !payload_ok {
        Err(payload_failure)
    } else if !end_ok {
        Err(Error::Other)
    } else {
        Ok(())
    }
}

/// `after` is `before` followed by one write transaction of `payload` to `address` that
/// reported `result`.
pub open spec fn is_write(
    before: Seq<BusOp>,
    after: Seq<BusOp>,
    address: u16,
    payload: Seq<u8>,
    result: Result<(), Error>,
) -> bool {
    exists|claim: LineClaim, instruction_ok: bool, payload_ok: bool, end_ok: bool|
        after == #[trigger] write_trace(
            before,
            claim,
            address,
            payload,
            instruction_ok,
            payload_ok,
            end_ok,
        ) && result == transaction_result(
            claim,
            instruction_ok,
            payload_ok,
            Error::SPIWrite,
            end_ok,
        )
}

/// `after` is `before` followed by one read transaction at `address` that offered `sent`, left
/// `received` in the buffer and reported `result`. Where nothing was transferred, `received`
/// is `sent`.
pub open spec fn is_read(
    before: Seq<BusOp>,
    after: Seq<BusOp>,
    address: u16,
    sent: Seq<u8>,
    received: Seq<u8>,
    result: Result<(), Error>,
) -> bool {
    exists|claim: LineClaim, instruction_ok: bool, transfer_ok: bool, end_ok: bool|
        after == #[trigger] read_trace(
            before,
            claim,
            address,
            sent,
            received,
            instruction_ok,
            transfer_ok,
            end_ok,
        ) && result == transaction_result(claim, instruction_ok, transfer_ok, Error::SPIRead, end_ok)
            && (!(claim.held() && instruction_ok) ==> received == sent)
}

/// The four zero bytes that are clocked out while a register value is clocked in.
pub open spec fn zeros() -> Seq<u8> {
    seq![0u8, 0u8, 0u8, 0u8]
}

/// Whether an access succeeded or why it failed, without what it returned.
pub open spec fn outcome(result: Result<u32, Error>) -> Result<(), Error> {
    match result {
        Ok(_) => Ok(()),
        Err(e) => Err(e),
    }
}

/// `after` is `before` followed by one read of the register at `address` that reported
/// `result`: the value is the four bytes received, the least significant first.
pub open spec fn is_sfr_read(
    before: Seq<BusOp>,
    after: Seq<BusOp>,
    address: u16,
    result: Result<u32, Error>,
) -> bool {
    exists|received: Seq<u8>|
        {
            &&& received.len() == 4
            &&& #[trigger] is_read(
                before,
                after,
                address,
                zeros(),
                received,
                outcome(result),
            )
            &&& result is Ok ==> result->Ok_0 == le_word(received)
        }
}

/// `after` is `before` followed by one write of `value` to the register at `address` that
/// reported `result`: the value crosses the bus the least significant byte first.
pub open spec fn is_sfr_write(
    before: Seq<BusOp>,
    after: Seq<BusOp>,
    address: u16,
    value: u32,
    result: Result<(), Error>,
) -> bool {
    is_write(before, after, address, le_bytes(value), result)
}

/// `after` is `before` followed by a read-modify-write of the register at `address`: one read
/// and, only if the read succeeded, one write of a word that `change` allows for the word read.
/// A failed read is the result, and nothing is written after it.
pub open spec fn is_update(
    before: Seq<BusOp>,
    after: Seq<BusOp>,
    address: u16,
    change: spec_fn(u32, u32) -> bool,
    result: Result<(), Error>,
) -> bool {
    exists|mid: Seq<BusOp>, read: Result<u32, Error>|
        {
            &&& #[trigger] is_sfr_read(before, mid, address, read)
            &&& match read {
                Err(e) => after == mid && result == Err::<(), Error>(e),
                Ok(word) => exists|written: u32|
                    change(word, written) && #[trigger] is_sfr_write(
                        mid,
                        after,
                        address,
                        written,
                        result,
                    ),
            }
        }
}

/// The change that sets the bits of `bits` and keeps the others.
pub open spec fn sets_bits(bits: u32) -> spec_fn(u32, u32) -> bool {
    |word: u32, written: u32| written == word | bits
}

/// Bit 19 of the CAN control register: transmitted messages are stored in the transmit event
/// FIFO.
pub const STORE_TRANSMIT_EVENTS: u32 = 0x0008_0000;

/// `after` is `before` followed by switching the transmit event FIFO on: the store bit set in
/// the CAN control register and then, only if that succeeded, the low four bits of
/// `object_count` set in the control register of the transmit event FIFO. The first failure
/// is the result.
pub open spec fn is_transmit_event_fifo_enabled(
    before: Seq<BusOp>,
    after: Seq<BusOp>,
    object_count: u32,
    result: Result<(), Error>,
) -> bool {
    exists|mid: Seq<BusOp>, step: Result<(), Error>|
        {
            &&& #[trigger] is_update(
                before,
                mid,
                SFRAddress::C1CON.spec_value(),
                sets_bits(STORE_TRANSMIT_EVENTS),
                step,
            )
            &&& match step {
                Err(e) => after == mid && result == Err::<(), Error>(e),
                Ok(_) => is_update(
                    mid,
                    after,
                    SFRAddress::C1TEFCON.spec_value(),
                    sets_bits(object_count & 0b1111),
                    result,
                ),
            }
        }
}

/// `after` is `before` followed by one reset transaction that reported `result`.
pub open spec fn is_reset(before: Seq<BusOp>, after: Seq<BusOp>, result: Result<(), Error>) -> bool {
    exists|claim: LineClaim, instruction_ok: bool, end_ok: bool|
        after == #[trigger] reset_trace(before, claim, instruction_ok, end_ok) && result
            == transaction_result(claim, instruction_ok, true, Error::SPIWrite, end_ok)
}

/// A transaction only adds to the record, and leaves the line inactive.
pub proof fn lemma_write_extends(
    before: Seq<BusOp>,
    after: Seq<BusOp>,
    address: u16,
    payload: Seq<u8>,
    result: Result<(), Error>,
)
    requires
        is_write(before, after, address, payload, result),
    ensures
        before.is_prefix_of(after),
        idle(after),
        result is Ok || result == Err::<(), Error>(Error::SPIWrite) || result == Err::<(), Error>(
            Error::Other,
        ),
{
}

/// A transaction only adds to the record, and leaves the line inactive.
pub proof fn lemma_read_extends(
    before: Seq<BusOp>,
    after: Seq<BusOp>,
    address: u16,
    sent: Seq<u8>,
    received: Seq<u8>,
    result: Result<(), Error>,
)
    requires
        is_read(before, after, address, sent, received, result),
    ensures
        before.is_prefix_of(after),
        idle(after),
        result is Ok || result == Err::<(), Error>(Error::SPIWrite) || result == Err::<(), Error>(
            Error::SPIRead,
        ) || result == Err::<(), Error>(Error::Other),
{
}

/// A register read only adds to the record, and leaves the line inactive.
pub proof fn lemma_sfr_read_extends(
    before: Seq<BusOp>,
    after: Seq<BusOp>,
    address: u16,
    result: Result<u32, Error>,
)
    requires
        is_sfr_read(before, after, address, result),
    ensures
        before.is_prefix_of(after),
        idle(after),
        framed(before) ==> framed(after),
{
    let received = choose|received: Seq<u8>|
        #[trigger] is_read(before, after, address, zeros(), received, outcome(result));
    lemma_read_extends(before, after, address, zeros(), received, outcome(result));
    if framed(before) {
        lemma_read_framed(before, after, address, zeros(), received, outcome(result));
    }
}

/// A read-modify-write only adds to the record, and leaves the line inactive, whichever of
/// its two transactions was the last.
pub proof fn lemma_update_extends(
    before: Seq<BusOp>,
    after: Seq<BusOp>,
    address: u16,
    change: spec_fn(u32, u32) -> bool,
    result: Result<(), Error>,
)
    requires
        is_update(before, after, address, change, result),
    ensures
        before.is_prefix_of(after),
        idle(after),
        framed(before) ==> framed(after),
{
    let (mid, read) = choose|mid: Seq<BusOp>, read: Result<u32, Error>|
        {
            &&& #[trigger] is_sfr_read(before, mid, address, read)
            &&& match read {
                Err(e) => after == mid && result == Err::<(), Error>(e),
                Ok(word) => exists|written: u32|
                    change(word, written) && #[trigger] is_sfr_write(
                        mid,
                        after,
                        address,
                        written,
                        result,
                    ),
            }
        };
    lemma_sfr_read_extends(before, mid, address, read);
    if let Ok(word) = read {
        let written = choose|written: u32|
            change(word, written) && #[trigger] is_sfr_write(mid, after, address, written, result);
        lemma_write_extends(mid, after, address, le_bytes(written), result);
        if framed(before) {
            lemma_write_framed(mid, after, address, le_bytes(written), result);
        }
        lemma_prefix_transitive(before, mid, after);
    }
}

/// A reset only adds to the record, and leaves the line inactive.
pub proof fn lemma_reset_extends(before: Seq<BusOp>, after: Seq<BusOp>, result: Result<(), Error>)
    requires
        is_reset(before, after, result),
    ensures
        before.is_prefix_of(after),
        idle(after),
{
}

/// Switching the transmit event FIFO on only adds to the record, and leaves the line
/// inactive.
pub proof fn lemma_transmit_event_fifo_enabled_extends(
    before: Seq<BusOp>,
    after: Seq<BusOp>,
    object_count: u32,
    result: Result<(), Error>,
)
    requires
        is_transmit_event_fifo_enabled(before, after, object_count, result),
    ensures
        before.is_prefix_of(after),
        idle(after),
        framed(before) ==> framed(after),
{
    let (mid, step) = choose|mid: Seq<BusOp>, step: Result<(), Error>|
        {
            &&& #[trigger] is_update(
                before,
                mid,
                SFRAddress::C1CON.spec_value(),
                sets_bits(STORE_TRANSMIT_EVENTS),
                step,
            )
            &&& match step {
                Err(e) => after == mid && result == Err::<(), Error>(e),
                Ok(_) => is_update(
                    mid,
                    after,
                    SFRAddress::C1TEFCON.spec_value(),
                    sets_bits(object_count & 0b1111),
                    result,
                ),
            }
        };
    lemma_update_extends(
        before,
        mid,
        SFRAddress::C1CON.spec_value(),
        sets_bits(STORE_TRANSMIT_EVENTS),
        step,
    );
    if step is Ok {
        lemma_update_extends(
            mid,
            after,
            SFRAddress::C1TEFCON.spec_value(),
            sets_bits(object_count & 0b1111),
            result,
        );
        lemma_prefix_transitive(before, mid, after);
    }
}

/// A record that extends an extension of a record extends that record.
pub proof fn lemma_prefix_transitive(a: Seq<BusOp>, b: Seq<BusOp>, c: Seq<BusOp>)
    requires
        a.is_prefix_of(b),
        b.is_prefix_of(c),
    ensures
        a.is_prefix_of(c),
{
    assert(a =~= c.subrange(0, a.len() as int)) by {
        assert forall|i: int| 0 <= i < a.len() implies a[i] == c[i] by {
            assert(a[i] == b.subrange(0, a.len() as int)[i]);
            assert(b[i] == c.subrange(0, b.len() as int)[i]);
        }
    }
}

/// The record of a controller that was just made is framed and has the line released.
pub proof fn lemma_fresh_record(ok: bool)
    ensures
        framed(seq![BusOp::Release { ok }]),
        idle(seq![BusOp::Release { ok }]),
        !claimed(seq![BusOp::Release { ok }]),
{
    lemma_push(Seq::empty(), BusOp::Release { ok });
    assert(seq![BusOp::Release { ok }] =~= Seq::<BusOp>::empty().push(BusOp::Release { ok }));
}

/// A line that is idle is not claimed.
pub proof fn lemma_idle_is_not_claimed(trace: Seq<BusOp>)
    requires
        idle(trace),
    ensures
        !claimed(trace),
{
}

/// Claiming the line keeps a record framed, and the driver holds the line afterwards exactly
/// when the pin took what claiming it needed.
pub proof fn lemma_claim_framed(trace: Seq<BusOp>, claim: LineClaim)
    requires
        framed(trace),
    ensures
        framed(claim_then(trace, claim)),
        claimed(claim_then(trace, claim)) == claim.held(),
{
    if claim.released_first {
        lemma_push(trace, BusOp::Release { ok: claim.release_ok });
        if claim.release_ok {
            lemma_push(trace.push(BusOp::Release { ok: true }), BusOp::Claim { ok: claim.claim_ok });
        }
    } else {
        lemma_push(trace, BusOp::Claim { ok: claim.claim_ok });
    }
}

/// A write transaction keeps a record framed: its bytes cross while the line is held.
pub proof fn lemma_write_framed(
    before: Seq<BusOp>,
    after: Seq<BusOp>,
    address: u16,
    payload: Seq<u8>,
    result: Result<(), Error>,
)
    requires
        is_write(before, after, address, payload, result),
        framed(before),
    ensures
        framed(after),
{
    let (claim, instruction_ok, payload_ok, end_ok) = choose|
        claim: LineClaim,
        instruction_ok: bool,
        payload_ok: bool,
        end_ok: bool,
    |
        after == #[trigger] write_trace(
            before,
            claim,
            address,
            payload,
            instruction_ok,
            payload_ok,
            end_ok,
        );
    let line = claim_then(before, claim);
    let end = BusOp::Release { ok: end_ok };
    lemma_claim_framed(before, claim);
    if !claim.held() {
        lemma_push(line, end);
    } else {
        let instruction = instruction_op(OpCode::Write, address, instruction_ok);
        lemma_push(line, instruction);
        if instruction_ok {
            let data = BusOp::Write { data: payload, ok: payload_ok };
            lemma_push(line.push(instruction), data);
            lemma_push(line.push(instruction).push(data), end);
        } else {
            lemma_push(line.push(instruction), end);
        }
    }
}

/// A read transaction keeps a record framed: its bytes cross while the line is held.
pub proof fn lemma_read_framed(
    before: Seq<BusOp>,
    after: Seq<BusOp>,
    address: u16,
    sent: Seq<u8>,
    received: Seq<u8>,
    result: Result<(), Error>,
)
    requires
        is_read(before, after, address, sent, received, result),
        framed(before),
    ensures
        framed(after),
{
    let (claim, instruction_ok, transfer_ok, end_ok) = choose|
        claim: LineClaim,
        instruction_ok: bool,
        transfer_ok: bool,
        end_ok: bool,
    |
        after == #[trigger] read_trace(
            before,
            claim,
            address,
            sent,
            received,
            instruction_ok,
            transfer_ok,
            end_ok,
        );
    let line = claim_then(before, claim);
    let end = BusOp::Release { ok: end_ok };
    lemma_claim_framed(before, claim);
    if !claim.held() {
        lemma_push(line, end);
    } else {
        let instruction = instruction_op(OpCode::Read, address, instruction_ok);
        lemma_push(line, instruction);
        if instruction_ok {
            let data = BusOp::Transfer { sent, received, ok: transfer_ok };
            lemma_push(line.push(instruction), data);
            lemma_push(line.push(instruction).push(data), end);
        } else {
            lemma_push(line.push(instruction), end);
        }
    }
}

/// A reset keeps a record framed.
pub proof fn lemma_reset_framed(before: Seq<BusOp>, after: Seq<BusOp>, result: Result<(), Error>)
    requires
        is_reset(before, after, result),
        framed(before),
    ensures
        framed(after),
{
    let (claim, instruction_ok, end_ok) = choose|
        claim: LineClaim,
        instruction_ok: bool,
        end_ok: bool,
    |
        after == #[trigger] reset_trace(before, claim, instruction_ok, end_ok);
    let line = claim_then(before, claim);
    let end = BusOp::Release { ok: end_ok };
    lemma_claim_framed(before, claim);
    if !claim.held() {
        lemma_push(line, end);
    } else {
        let instruction = instruction_op(OpCode::Reset, 0, instruction_ok);
        lemma_push(line, instruction);
        lemma_push(line.push(instruction), end);
    }
}

} // verus!
