//! The controller: it owns the transport and the chip-select line, and turns register and RAM
//! accesses into bus transactions.
use crate::bits::{from_le_bytes, le_bytes, to_le_bytes};
use crate::bus::{
    claim_then, is_read, is_reset, is_sfr_read, is_sfr_write, is_transmit_event_fifo_enabled,
    is_update, is_write, ram_access_allowed, read_trace, reset_trace, sets_bits, write_trace,
    zeros, BusOp, LineClaim, RAM_END, RAM_START, STORE_TRANSMIT_EVENTS,
};
use crate::can::fifo;
use crate::can::fifo::{
    fifo_control_value, fifo_status_value, fifo_user_address_value, is_fifo_number,
};
use crate::generic::{
    encode_instruction, IOCONRegister, OSCRegister, OpCode, Register, SFRAddress,
};
use embedded_hal::blocking::delay::DelayUs;
use embedded_hal::blocking::spi::{Transfer, Write};
use embedded_hal::digital::v2::StatefulOutputPin;
use vstd::prelude::*;

verus! {

/// Why a register or RAM access failed.
#[derive(Clone, Copy, Debug, PartialEq, Eq, Structural)]
pub enum Error {
    /// The transport failed while receiving.
    SPIRead,
    /// The transport failed while sending.
    SPIWrite,
    /// The number names no FIFO: it is not one of 1 to 31.
    InvalidFIFO(u8),
    /// The access does not lie within the chip's RAM.
    InvalidRAMAddress(u16),
    /// The chip-select pin refused a command: the line could not be claimed, or could not be
    /// released after the bytes had gone.
    Other,
}

/// Why the configuration sequence failed.
#[derive(Clone, Copy, Debug, PartialEq, Eq, Structural)]
pub enum ConfigError {
    /// The chip did not report configuration mode within the polling budget.
    ConfigurationModeTimeout,
    /// A word written to RAM read back changed.
    SPIFailedRAMEcho,
    /// The PLL did not report lock within the polling budget.
    PLLNotReady,
    /// A register or RAM access failed.
    Other(Error),
}

impl From<Error> for ConfigError {
    fn from(error: Error) -> (result: ConfigError) {
        ConfigError::Other(error)
    }
}

impl vstd::std_specs::convert::FromSpecImpl<Error> for ConfigError {
    open spec fn obeys_from_spec() -> bool {
        true
    }

    open spec fn from_spec(error: Error) -> ConfigError {
        ConfigError::Other(error)
    }
}

/// The driver of one chip. It owns the byte transport and the chip-select line for as long as
/// it lives, and keeps a record of every command it gave them; what each operation does is
/// stated over that record. Several controllers, each with a line of its own, can exist side
/// by side.
///
/// A chip-select pin that reports an error is never a reason to stop the program. An operation
/// that cannot claim the line sends nothing and fails with `Error::Other`; so does one whose
/// last release the pin refuses. `new` and `free`, which have no error to return, give their
/// release and go on: the next operation begins by claiming the line and reports a pin that
/// still refuses.
pub struct Controller<T, SS> {
    spi_master: T,
    slave_select: SS,
    trace: Ghost<Seq<BusOp>>,
}

/// Calls `Write::write` of the transport with `data`. The record grows by the write and by
/// whether the transport reported success; nothing is claimed of when it succeeds.
#[verifier::external_body]
fn bus_write<T: Write<u8>, SS>(ctl: &mut Controller<T, SS>, data: &[u8]) -> (ok: bool)
    ensures
        final(ctl).trace@ == old(ctl).trace@.push(BusOp::Write { data: data@, ok }),
{
    ctl.spi_master.write(data).is_ok()
}

/// Calls `Transfer::transfer` of the transport, which sends the buffer and overwrites it with
/// what it received. The buffer keeps its length; the record grows by what was offered, what
/// the buffer holds afterwards, and whether the transport reported success.
#[verifier::external_body]
fn bus_transfer<T: Transfer<u8>, SS>(ctl: &mut Controller<T, SS>, data: &mut [u8]) -> (ok: bool)
    ensures
        final(data)@.len() == old(data)@.len(),
        final(ctl).trace@ == old(ctl).trace@.push(
            BusOp::Transfer { sent: old(data)@, received: final(data)@, ok },
        ),
{
    ctl.spi_master.transfer(data).is_ok()
}

/// Calls `StatefulOutputPin::is_set_low` of the chip-select line: whether the pin says that it
/// is driven low, or `None` where the pin reports an error. Nothing is claimed of the answer.
#[verifier::external_body]
fn line_is_low<T, SS: StatefulOutputPin>(ctl: &Controller<T, SS>) -> (low: Option<bool>) {
    ctl.slave_select.is_set_low().ok()
}

/// Calls `OutputPin::set_high` of the chip-select line and returns whether the pin reported
/// success. The record grows by the release and that answer. The call is given the line
/// alone, so the transport is as it was. Nothing is claimed of the line itself: what a pin is
/// after the call is its implementation's.
#[verifier::external_body]
fn line_release<T, SS: StatefulOutputPin>(ctl: &mut Controller<T, SS>) -> (ok: bool)
    ensures
        final(ctl).trace@ == old(ctl).trace@.push(BusOp::Release { ok }),
        final(ctl).spi_master == old(ctl).spi_master,
{
    ctl.slave_select.set_high().is_ok()
}

/// Calls `OutputPin::set_low` of the chip-select line and returns whether the pin reported
/// success. The record grows by the claim and that answer.
#[verifier::external_body]
fn line_claim<T, SS: StatefulOutputPin>(ctl: &mut Controller<T, SS>) -> (ok: bool)
    ensures
        final(ctl).trace@ == old(ctl).trace@.push(BusOp::Claim { ok }),
{
    ctl.slave_select.set_low().is_ok()
}

/// Calls `DelayUs::delay_us` of the delay provider. The record grows by the delay.
#[verifier::external_body]
fn pause<T, SS, D: DelayUs<u32>>(ctl: &mut Controller<T, SS>, delay: &mut D, us: u32)
    ensures
        final(ctl).trace@ == old(ctl).trace@.push(BusOp::Delay { us }),
{
    delay.delay_us(us)
}

impl<T, SS> Controller<T, SS> where
    T: Write<u8> + Transfer<u8>,
    SS: StatefulOutputPin,
 {
    /// Every command given to the bus since the controller was made, the oldest first.
    pub closed spec fn trace(&self) -> Seq<BusOp> {
        self.trace@
    }

    /// The byte transport that the controller owns, as it stands.
    pub closed spec fn transport(&self) -> T {
        self.spi_master
    }

    /// Takes over the transport and the chip-select line, and tells the pin to drive the line
    /// inactive. The controller is made whatever the pin answers: the record holds the release
    /// and the answer, and nothing was asked of the transport.
    pub fn new(spi_master: T, slave_select: SS) -> (controller: Controller<T, SS>)
        ensures
            controller.trace().len() == 1,
            controller.trace()[0] is Release,
            controller.transport() == spi_master,
    {
        let mut controller = Controller { spi_master, slave_select, trace: Ghost(Seq::empty()) };
        let _ = line_release(&mut controller);
        controller
    }

    /// Tries to drive the line active with a fresh edge. A line that says it is active, or
    /// cannot say, is released first; where the pin refuses that release, no claim is given.
    fn ready_slave_select(&mut self) -> (claim: LineClaim)
        ensures
            final(self).trace() == claim_then(old(self).trace(), claim),
    {
        let released_first = match line_is_low(self) {
            Some(low) => low,
            None => true,
        };
        if released_first {
            let release_ok = line_release(self);
            if release_ok {
                let claim_ok = line_claim(self);
                LineClaim { released_first, release_ok, claim_ok }
            } else {
                LineClaim { released_first, release_ok, claim_ok: false }
            }
        } else {
            let claim_ok = line_claim(self);
            LineClaim { released_first, release_ok: true, claim_ok }
        }
    }

    /// Tells the pin to drive the line inactive, and returns whether it took the command.
    fn reset_slave_select(&mut self) -> (ok: bool)
        ensures
            final(self).trace() == old(self).trace().push(BusOp::Release { ok }),
    {
        line_release(self)
    }

    /// Hands `data` to the transport for writing.
    fn send(&mut self, data: &[u8]) -> (result: Result<(), Error>)
        ensures
            final(self).trace() == old(self).trace().push(
                BusOp::Write { data: data@, ok: result is Ok },
            ),
            result == Ok::<(), Error>(()) || result == Err::<(), Error>(Error::SPIWrite),
    {
        if bus_write(self, data) {
            Ok(())
        } else {
            Err(Error::SPIWrite)
        }
    }

    /// Sends `buf` and overwrites it with what comes back.
    fn read(&mut self, buf: &mut [u8]) -> (result: Result<(), Error>)
        ensures
            final(buf)@.len() == old(buf)@.len(),
            final(self).trace() == old(self).trace().push(
                BusOp::Transfer { sent: old(buf)@, received: final(buf)@, ok: result is Ok },
            ),
            result == Ok::<(), Error>(()) || result == Err::<(), Error>(Error::SPIRead),
    {
        if bus_transfer(self, buf) {
            Ok(())
        } else {
            Err(Error::SPIRead)
        }
    }

    /// Whether an access of `data_size` bytes at `address` lies within the chip's RAM.
    fn verify_ram_address(&self, address: u16, data_size: usize) -> (result: Result<(), Error>)
        ensures
            ram_access_allowed(address, data_size) ==> result == Ok::<(), Error>(()),
            !ram_access_allowed(address, data_size) ==> result == Err::<(), Error>(
                Error::InvalidRAMAddress(address),
            ),
    {
        if address < RAM_START || address > RAM_END {
            return Err(Error::InvalidRAMAddress(address));
        }
        if data_size > (RAM_END - address) as usize {
            return Err(Error::InvalidRAMAddress(address));
        }
        Ok(())
    }

    /// Resets the chip by software: one transaction that carries the reset instruction. The
    /// release is given whatever happened before it.
    pub fn reset(&mut self) -> (result: Result<(), Error>)
        ensures
            is_reset(old(self).trace(), final(self).trace(), result),
    {
        let ghost before = self.trace();
        let claim = self.ready_slave_select();
        if !claim.is_held() {
            let end_ok = self.reset_slave_select();
            assert(self.trace() == reset_trace(before, claim, false, end_ok));
            return Err(Error::Other);
        }
        let instruction = encode_instruction(OpCode::Reset, 0);
        let sent = self.send(&instruction);
        let end_ok = self.reset_slave_select();
        assert(self.trace() == reset_trace(before, claim, sent is Ok, end_ok));
        match sent {
            Ok(_) => if end_ok {
                Ok(())
            } else {
                Err(Error::Other)
            },
            Err(e) => Err(e),
        }
    }

    /// Reads the register at `address`: one transaction that carries the read instruction and
    /// clocks in four bytes. The release is given whatever happened before it.
    pub fn read_sfr(&mut self, address: &SFRAddress) -> (result: Result<u32, Error>)
        ensures
            is_sfr_read(old(self).trace(), final(self).trace(), address.spec_value(), result),
    {
        let ghost before = self.trace();
        let mut buf = [0u8; 4];
        assert(buf@ =~= zeros());
        let claim = self.ready_slave_select();
        if !claim.is_held() {
            let end_ok = self.reset_slave_select();
            proof {
                assert(self.trace() == read_trace(
                    before,
                    claim,
                    address.spec_value(),
                    zeros(),
                    zeros(),
                    false,
                    false,
                    end_ok,
                ));
                assert(is_read(
                    before,
                    self.trace(),
                    address.spec_value(),
                    zeros(),
                    zeros(),
                    Err(Error::Other),
                ));
            }
            return Err(Error::Other);
        }
        let instruction = encode_instruction(OpCode::Read, address.value());
        match self.send(&instruction) {
            Ok(_) => (),
            Err(e) => {
                let end_ok = self.reset_slave_select();
                proof {
                    assert(self.trace() == read_trace(
                        before,
                        claim,
                        address.spec_value(),
                        zeros(),
                        zeros(),
                        false,
                        false,
                        end_ok,
                    ));
                    assert(is_read(
                        before,
                        self.trace(),
                        address.spec_value(),
                        zeros(),
                        zeros(),
                        Err(Error::SPIWrite),
                    ));
                }
                return Err(e);
            },
        }
        let read = self.read(&mut buf);
        let end_ok = self.reset_slave_select();
        let result = match read {
            Ok(_) => if end_ok {
                Ok(from_le_bytes(&buf))
            } else {
                Err(Error::Other)
            },
            Err(e) => Err(e),
        };
        proof {
            assert(self.trace() == read_trace(
                before,
                claim,
                address.spec_value(),
                zeros(),
                buf@,
                true,
                read is Ok,
                end_ok,
            ));
            assert(is_read(
                before,
                self.trace(),
                address.spec_value(),
                zeros(),
                buf@,
                crate::bus::outcome(result),
            ));
        }
        result
    }

    /// Writes `value` to the register at `address`: one transaction that carries the write
    /// instruction and then the value, the least significant byte first. The release is given
    /// whatever happened before it.
    pub fn write_sfr(&mut self, address: &SFRAddress, value: u32) -> (result: Result<(), Error>)
        ensures
            is_sfr_write(old(self).trace(), final(self).trace(), address.spec_value(), value, result),
    {
        let ghost before = self.trace();
        let payload = to_le_bytes(value);
        let claim = self.ready_slave_select();
        if !claim.is_held() {
            let end_ok = self.reset_slave_select();
            assert(self.trace() == write_trace(
                before,
                claim,
                address.spec_value(),
                le_bytes(value),
                false,
                false,
                end_ok,
            ));
            return Err(Error::Other);
        }
        let instruction = encode_instruction(OpCode::Write, address.value());
        match self.send(&instruction) {
            Ok(_) => (),
            Err(e) => {
                let end_ok = self.reset_slave_select();
                assert(self.trace() == write_trace(
                    before,
                    claim,
                    address.spec_value(),
                    le_bytes(value),
                    false,
                    false,
                    end_ok,
                ));
                return Err(e);
            },
        }
        let sent = self.send(&payload);
        let end_ok = self.reset_slave_select();
        assert(self.trace() == write_trace(
            before,
            claim,
            address.spec_value(),
            le_bytes(value),
            true,
            sent is Ok,
            end_ok,
        ));
        match sent {
            Ok(_) => if end_ok {
                Ok(())
            } else {
                Err(Error::Other)
            },
            Err(e) => Err(e),
        }
    }

    /// Reads `data.len()` bytes of RAM from `address` into `data`. An access that does not lie
    /// within the RAM is refused before anything is sent. Otherwise one read transaction
    /// follows; its release is given whatever happened before it.
    pub fn read_ram(&mut self, address: u16, data: &mut [u8]) -> (result: Result<(), Error>)
        ensures
            final(data)@.len() == old(data)@.len(),
            !ram_access_allowed(address, old(data)@.len() as usize) ==> {
                &&& result == Err::<(), Error>(Error::InvalidRAMAddress(address))
                &&& final(self).trace() == old(self).trace()
                &&& final(data)@ == old(data)@
            },
            ram_access_allowed(address, old(data)@.len() as usize) ==> is_read(
                old(self).trace(),
                final(self).trace(),
                address,
                old(data)@,
                final(data)@,
                result,
            ),
    {
        self.verify_ram_address(address, data.len())?;
        let ghost before = self.trace();
        let ghost offered = data@;
        let claim = self.ready_slave_select();
        if !claim.is_held() {
            let end_ok = self.reset_slave_select();
            assert(self.trace() == read_trace(
                before,
                claim,
                address,
                offered,
                offered,
                false,
                false,
                end_ok,
            ));
            return Err(Error::Other);
        }
        let instruction = encode_instruction(OpCode::Read, address);
        match self.send(&instruction) {
            Ok(_) => (),
            Err(_) => {
                let end_ok = self.reset_slave_select();
                assert(self.trace() == read_trace(
                    before,
                    claim,
                    address,
                    offered,
                    offered,
                    false,
                    false,
                    end_ok,
                ));
                return Err(Error::SPIWrite);
            },
        }
        let read = self.read(data);
        let end_ok = self.reset_slave_select();
        assert(self.trace() == read_trace(
            before,
            claim,
            address,
            offered,
            data@,
            true,
            read is Ok,
            end_ok,
        ));
        match read {
            Ok(_) => if end_ok {
                Ok(())
            } else {
                Err(Error::Other)
            },
            Err(e) => Err(e),
        }
    }

    /// Writes `data` to RAM at `address`, the bytes in the order given. An access that does not
    /// lie within the RAM is refused before anything is sent. Otherwise one write transaction
    /// follows; its release is given whatever happened before it.
    pub fn write_ram(&mut self, address: u16, data: &[u8]) -> (result: Result<(), Error>)
        ensures
            !ram_access_allowed(address, data@.len() as usize) ==> {
                &&& result == Err::<(), Error>(Error::InvalidRAMAddress(address))
                &&& final(self).trace() == old(self).trace()
            },
            ram_access_allowed(address, data@.len() as usize) ==> is_write(
                old(self).trace(),
                final(self).trace(),
                address,
                data@,
                result,
            ),
    {
        self.verify_ram_address(address, data.len())?;
        let ghost before = self.trace();
        let claim = self.ready_slave_select();
        if !claim.is_held() {
            let end_ok = self.reset_slave_select();
            assert(self.trace() == write_trace(
                before,
                claim,
                address,
                data@,
                false,
                false,
                end_ok,
            ));
            return Err(Error::Other);
        }
        let instruction = encode_instruction(OpCode::Write, address);
        match self.send(&instruction) {
            Ok(_) => (),
            Err(_) => {
                let end_ok = self.reset_slave_select();
                assert(self.trace() == write_trace(
                    before,
                    claim,
                    address,
                    data@,
                    false,
                    false,
                    end_ok,
                ));
                return Err(Error::SPIWrite);
            },
        };
        let sent = self.send(data);
        let end_ok = self.reset_slave_select();
        assert(self.trace() == write_trace(
            before,
            claim,
            address,
            data@,
            true,
            sent is Ok,
            end_ok,
        ));
        match sent {
            Ok(_) => if end_ok {
                Ok(())
            } else {
                Err(Error::Other)
            },
            Err(e) => Err(e),
        }
    }

    /// Reads a register, lets `f` change the value, and writes it back. `r` wraps the word read
    /// as a value of the register's type. Nothing is written where the read fails. Where the
    /// write fails after the read, what the register holds is not known.
    pub fn modify_sfr<V: Register, R: FnOnce(u32) -> V, F: FnOnce(V) -> V>(
        &mut self,
        r: R,
        f: F,
    ) -> (result: Result<(), Error>)
        requires
            forall|word: u32| call_requires(r, (word,)),
            forall|register: V| call_requires(f, (register,)),
        ensures
            is_update(
                old(self).trace(),
                final(self).trace(),
                V::spec_address().spec_value(),
                |word: u32, written: u32|
                    exists|read: V, changed: V|
                        #![trigger call_ensures(r, (word,), read), call_ensures(f, (read,), changed)]
                        call_ensures(r, (word,), read) && call_ensures(f, (read,), changed)
                            && written == changed.word(),
                result,
            ),
    {
        let ghost before = self.trace();
        let address = V::address();
        let read = self.read_sfr(&address);
        let ghost mid = self.trace();
        match read {
            Err(e) => Err(e),
            Ok(word) => {
                let register = r(word);
                let changed = f(register);
                let written = changed.into_word();
                let result = self.write_sfr(&address, written);
                proof {
                    assert(call_ensures(r, (word,), register) && call_ensures(
                        f,
                        (register,),
                        changed,
                    ));
                    assert(is_sfr_write(
                        mid,
                        self.trace(),
                        V::spec_address().spec_value(),
                        written,
                        result,
                    ));
                }
                result
            },
        }
    }

    /// Reads the oscillator register, lets `f` change it, and writes it back.
    pub fn modify_osc<F: FnOnce(OSCRegister) -> OSCRegister>(&mut self, f: F) -> (result: Result<
        (),
        Error,
    >)
        requires
            forall|register: OSCRegister| call_requires(f, (register,)),
        ensures
            is_update(
                old(self).trace(),
                final(self).trace(),
                SFRAddress::OSC.spec_value(),
                |word: u32, written: u32|
                    call_ensures(f, (OSCRegister(word),), OSCRegister(written)),
                result,
            ),
    {
        let ghost before = self.trace();
        let read = self.read_sfr(&SFRAddress::OSC);
        let ghost mid = self.trace();
        match read {
            Err(e) => Err(e),
            Ok(word) => {
                let changed = f(OSCRegister(word));
                let result = self.write_sfr(&SFRAddress::OSC, changed.0);
                proof {
                    assert(is_sfr_write(
                        mid,
                        self.trace(),
                        SFRAddress::OSC.spec_value(),
                        changed.0,
                        result,
                    ));
                }
                result
            },
        }
    }

    /// Reads the input/output control register, lets `f` change it, and writes it back.
    pub fn modify_iocon<F: FnOnce(IOCONRegister) -> IOCONRegister>(&mut self, f: F) -> (result:
        Result<(), Error>)
        requires
            forall|register: IOCONRegister| call_requires(f, (register,)),
        ensures
            is_update(
                old(self).trace(),
                final(self).trace(),
                SFRAddress::IOCON.spec_value(),
                |word: u32, written: u32|
                    call_ensures(f, (IOCONRegister(word),), IOCONRegister(written)),
                result,
            ),
    {
        let ghost before = self.trace();
        let read = self.read_sfr(&SFRAddress::IOCON);
        let ghost mid = self.trace();
        match read {
            Err(e) => Err(e),
            Ok(word) => {
                let changed = f(IOCONRegister(word));
                let result = self.write_sfr(&SFRAddress::IOCON, changed.0);
                proof {
                    assert(is_sfr_write(
                        mid,
                        self.trace(),
                        SFRAddress::IOCON.spec_value(),
                        changed.0,
                        result,
                    ));
                }
                result
            },
        }
    }

    /// Reads the register at `address` and writes it back with the bits of `bits` set.
    fn set_bits(&mut self, address: &SFRAddress, bits: u32) -> (result: Result<(), Error>)
        ensures
            is_update(
                old(self).trace(),
                final(self).trace(),
                address.spec_value(),
                sets_bits(bits),
                result,
            ),
    {
        let read = self.read_sfr(address);
        let ghost mid = self.trace();
        match read {
            Err(e) => Err(e),
            Ok(word) => {
                let result = self.write_sfr(address, word | bits);
                proof {
                    assert(is_sfr_write(
                        mid,
                        self.trace(),
                        address.spec_value(),
                        word | bits,
                        result,
                    ));
                }
                result
            },
        }
    }

    /// Switches the transmit event FIFO on: sets the store-in-FIFO bit (bit 19) of the CAN
    /// control register, then sets the low four bits of `object_count` in the control register
    /// of the transmit event FIFO. The first access that fails ends the sequence. Nothing
    /// checks that the FIFO fits into the RAM beside the other queues.
    pub fn enable_transmit_event_fifo(&mut self, object_count: u32) -> (result: Result<(), Error>)
        ensures
            is_transmit_event_fifo_enabled(
                old(self).trace(),
                final(self).trace(),
                object_count,
                result,
            ),
    {
        let first = self.set_bits(&SFRAddress::C1CON, STORE_TRANSMIT_EVENTS);
        match first {
            Err(e) => Err(e),
            Ok(_) => self.set_bits(&SFRAddress::C1TEFCON, object_count & 0b1111),
        }
    }

    /// Reads the control register of FIFO `fifo_number`, lets `f` change it, and writes it
    /// back. A number that names no FIFO is refused before anything is sent.
    pub fn configure_fifo_control<F>(&mut self, fifo_number: u8, f: F) -> (result: Result<
        (),
        Error,
    >) where F: FnOnce(fifo::ControlRegister) -> fifo::ControlRegister
        requires
            forall|register: fifo::ControlRegister| call_requires(f, (register,)),
        ensures
            !is_fifo_number(fifo_number) ==> {
                &&& result == Err::<(), Error>(Error::InvalidFIFO(fifo_number))
                &&& final(self).trace() == old(self).trace()
            },
            is_fifo_number(fifo_number) ==> is_update(
                old(self).trace(),
                final(self).trace(),
                fifo_control_value(fifo_number) as u16,
                |word: u32, written: u32|
                    call_ensures(
                        f,
                        (fifo::ControlRegister(word),),
                        fifo::ControlRegister(written),
                    ),
                result,
            ),
    {
        let address = match fifo::get_fifo_control_address(fifo_number) {
            Ok(addr) => addr,
            Err(e) => return Err(Error::InvalidFIFO(e)),
        };
        let read = self.read_sfr(&address);
        let ghost mid = self.trace();
        match read {
            Err(e) => Err(e),
            Ok(word) => {
                let changed = f(fifo::ControlRegister(word));
                let result = self.write_sfr(&address, changed.0);
                proof {
                    assert(is_sfr_write(mid, self.trace(), address.spec_value(), changed.0, result));
                }
                result
            },
        }
    }

    /// Reads the status register of FIFO `fifo_number`. A number that names no FIFO is refused
    /// before anything is sent.
    pub fn read_fifo_status(&mut self, fifo_number: u8) -> (result: Result<
        fifo::StatusRegister,
        Error,
    >)
        ensures
            !is_fifo_number(fifo_number) ==> {
                &&& result == Err::<fifo::StatusRegister, Error>(Error::InvalidFIFO(fifo_number))
                &&& final(self).trace() == old(self).trace()
            },
            is_fifo_number(fifo_number) ==> is_sfr_read(
                old(self).trace(),
                final(self).trace(),
                fifo_status_value(fifo_number) as u16,
                match result {
                    Ok(register) => Ok(register.0),
                    Err(e) => Err(e),
                },
            ),
    {
        let address = match fifo::get_fifo_status_address(fifo_number) {
            Ok(addr) => addr,
            Err(e) => return Err(Error::InvalidFIFO(e)),
        };
        match self.read_sfr(&address) {
            Ok(val) => Ok(fifo::StatusRegister(val)),
            Err(err) => Err(err),
        }
    }

    /// Reads the status register of FIFO `fifo_number`, lets `f` change it, and writes it
    /// back. A number that names no FIFO is refused before anything is sent.
    pub fn write_fifo_status<F>(&mut self, fifo_number: u8, f: F) -> (result: Result<(), Error>) where
        F: FnOnce(fifo::StatusRegister) -> fifo::StatusRegister,

        requires
            forall|register: fifo::StatusRegister| call_requires(f, (register,)),
        ensures
            !is_fifo_number(fifo_number) ==> {
                &&& result == Err::<(), Error>(Error::InvalidFIFO(fifo_number))
                &&& final(self).trace() == old(self).trace()
            },
            is_fifo_number(fifo_number) ==> is_update(
                old(self).trace(),
                final(self).trace(),
                fifo_status_value(fifo_number) as u16,
                |word: u32, written: u32|
                    call_ensures(f, (fifo::StatusRegister(word),), fifo::StatusRegister(written)),
                result,
            ),
    {
        let address = match fifo::get_fifo_status_address(fifo_number) {
            Ok(addr) => addr,
            Err(e) => return Err(Error::InvalidFIFO(e)),
        };
        let read = self.read_sfr(&address);
        let ghost mid = self.trace();
        match read {
            Err(e) => Err(e),
            Ok(word) => {
                let changed = f(fifo::StatusRegister(word));
                let result = self.write_sfr(&address, changed.0);
                proof {
                    assert(is_sfr_write(mid, self.trace(), address.spec_value(), changed.0, result));
                }
                result
            },
        }
    }

    /// Reads the user address register of FIFO `fifo_number`. A number that names no FIFO is
    /// refused before anything is sent.
    pub fn read_fifo_user_address(&mut self, fifo_number: u8) -> (result: Result<
        fifo::UserAddressRegister,
        Error,
    >)
        ensures
            !is_fifo_number(fifo_number) ==> {
                &&& result == Err::<fifo::UserAddressRegister, Error>(
                    Error::InvalidFIFO(fifo_number),
                )
                &&& final(self).trace() == old(self).trace()
            },
            is_fifo_number(fifo_number) ==> is_sfr_read(
                old(self).trace(),
                final(self).trace(),
                fifo_user_address_value(fifo_number) as u16,
                match result {
                    Ok(register) => Ok(register.0),
                    Err(e) => Err(e),
                },
            ),
    {
        let address = match fifo::get_fifo_user_address(fifo_number) {
            Ok(addr) => addr,
            Err(e) => return Err(Error::InvalidFIFO(e)),
        };
        match self.read_sfr(&address) {
            Ok(val) => Ok(fifo::UserAddressRegister(val)),
            Err(err) => Err(err),
        }
    }

    /// Reads the user address register of FIFO `fifo_number`, lets `f` change it, and writes
    /// it back. A number that names no FIFO is refused before anything is sent.
    pub fn write_fifo_user_address<F>(&mut self, fifo_number: u8, f: F) -> (result: Result<
        (),
        Error,
    >) where F: FnOnce(fifo::UserAddressRegister) -> fifo::UserAddressRegister
        requires
            forall|register: fifo::UserAddressRegister| call_requires(f, (register,)),
        ensures
            !is_fifo_number(fifo_number) ==> {
                &&& result == Err::<(), Error>(Error::InvalidFIFO(fifo_number))
                &&& final(self).trace() == old(self).trace()
            },
            is_fifo_number(fifo_number) ==> is_update(
                old(self).trace(),
                final(self).trace(),
                fifo_user_address_value(fifo_number) as u16,
                |word: u32, written: u32|
                    call_ensures(
                        f,
                        (fifo::UserAddressRegister(word),),
                        fifo::UserAddressRegister(written),
                    ),
                result,
            ),
    {
        let address = match fifo::get_fifo_user_address(fifo_number) {
            Ok(addr) => addr,
            Err(e) => return Err(Error::InvalidFIFO(e)),
        };
        let read = self.read_sfr(&address);
        let ghost mid = self.trace();
        match read {
            Err(e) => Err(e),
            Ok(word) => {
                let changed = f(fifo::UserAddressRegister(word));
                let result = self.write_sfr(&address, changed.0);
                proof {
                    assert(is_sfr_write(mid, self.trace(), address.spec_value(), changed.0, result));
                }
                result
            },
        }
    }

    /// Blocks for `us` microseconds.
    pub(crate) fn wait<D: DelayUs<u32>>(&mut self, delay: &mut D, us: u32)
        ensures
            final(self).trace() == old(self).trace().push(BusOp::Delay { us }),
    {
        pause(self, delay, us);
    }

    /// Gives the transport and the chip-select line back, after telling the pin to drive the
    /// line inactive. The handles go back whatever the pin answers: the caller has the pin again
    /// and can ask it. The transport comes back as the controller held it: the release is the
    /// only command given, and it goes to the line.
    pub fn free(self) -> (parts: (T, SS))
        ensures
            parts.0 == self.transport(),
    {
        let mut controller = self;
        let _ = line_release(&mut controller);
        (controller.spi_master, controller.slave_select)
    }
}

} // verus!
