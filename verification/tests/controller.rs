//! The controller against a simulated chip: what crosses the bus, in what order, and what the
//! driver makes of the answers.
use std::cell::RefCell;
use std::rc::Rc;

use embedded_hal::blocking::delay::DelayUs;
use embedded_hal::blocking::spi::{Transfer, Write};
use embedded_hal::digital::v2::{OutputPin, StatefulOutputPin};
use mcp2517fd::can::control::{PayloadSize, RetransmissionAttempts};
use mcp2517fd::can::fifo::{ControlRegister, StatusRegister, UserAddressRegister};
use mcp2517fd::generic::{IOCONRegister, OSCRegister, SFRAddress};
use mcp2517fd::settings::{
    IOConfiguration, Oscillator, Settings, SysClkDivider, TxQueueConfiguration, PLL,
};
use mcp2517fd::spi::{ConfigError, Controller, Error};

#[derive(Clone, Debug, PartialEq, Eq)]
enum Event {
    Low,
    High,
    LowRefused,
    HighRefused,
    Write(Vec<u8>),
    Transfer(Vec<u8>),
    Delay(u32),
}

struct Chip {
    memory: Vec<u8>,
    log: Vec<Event>,
    line_low: bool,
    pending: Option<(u8, u16)>,
    /// Reads of the CAN control register that report normal mode before configuration mode is
    /// reported; `None` never reports it.
    config_after: Option<usize>,
    c1con_reads: usize,
    osc_reads: usize,
    pll_ready_after: Option<usize>,
    corrupt_bit: Option<u32>,
    fail_write_number: Option<usize>,
    fail_transfer_number: Option<usize>,
    refuse_low: bool,
    refuse_high: bool,
    refuse_sense: bool,
    writes: usize,
    transfers: usize,
}

impl Chip {
    fn new() -> Rc<RefCell<Chip>> {
        Rc::new(RefCell::new(Chip {
            memory: vec![0u8; 4096],
            log: Vec::new(),
            line_low: false,
            pending: None,
            config_after: Some(0),
            c1con_reads: 0,
            osc_reads: 0,
            pll_ready_after: Some(0),
            corrupt_bit: None,
            fail_write_number: None,
            fail_transfer_number: None,
            refuse_low: false,
            refuse_high: false,
            refuse_sense: false,
            writes: 0,
            transfers: 0,
        }))
    }

    fn word(&self, address: usize) -> u32 {
        u32::from_le_bytes([
            self.memory[address],
            self.memory[address + 1],
            self.memory[address + 2],
            self.memory[address + 3],
        ])
    }

    fn set_word(&mut self, address: usize, word: u32) {
        self.memory[address..address + 4].copy_from_slice(&word.to_le_bytes());
    }

    fn answer(&mut self, address: u16, length: usize) -> Vec<u8> {
        let start = address as usize;
        let mut out = self.memory[start..start + length].to_vec();
        if address == 0x000 && length == 4 {
            self.c1con_reads += 1;
            let configured = match self.config_after {
                Some(n) => self.c1con_reads > n,
                None => false,
            };
            let mut word = u32::from_le_bytes([out[0], out[1], out[2], out[3]]);
            word &= !(0b111 << 21);
            if configured {
                word |= 4 << 21;
            }
            out = word.to_le_bytes().to_vec();
        }
        if address == 0xE00 && length == 4 {
            self.osc_reads += 1;
            let ready = match self.pll_ready_after {
                Some(n) => self.osc_reads > n,
                None => false,
            };
            let mut word = u32::from_le_bytes([out[0], out[1], out[2], out[3]]);
            word &= !(1 << 8);
            if ready {
                word |= 1 << 8;
            }
            out = word.to_le_bytes().to_vec();
        }
        if address == 0x400 && length == 4 {
            if let Some(bit) = self.corrupt_bit {
                if u32::from_le_bytes([out[0], out[1], out[2], out[3]]) == 1u32 << bit {
                    out = vec![0, 0, 0, 0];
                }
            }
        }
        out
    }
}

struct Bus(Rc<RefCell<Chip>>);

struct Line(Rc<RefCell<Chip>>);

struct Clock(Rc<RefCell<Chip>>);

impl Write<u8> for Bus {
    type Error = ();

    fn write(&mut self, words: &[u8]) -> Result<(), ()> {
        let mut chip = self.0.borrow_mut();
        chip.log.push(Event::Write(words.to_vec()));
        chip.writes += 1;
        if chip.fail_write_number == Some(chip.writes) {
            chip.pending = None;
            return Err(());
        }
        match chip.pending.take() {
            None => {
                let word = u16::from_be_bytes([words[0], words[1]]);
                let op = (word >> 12) as u8;
                if op != 0 {
                    chip.pending = Some((op, word & 0x0FFF));
                }
            }
            Some((_, address)) => {
                let start = address as usize;
                chip.memory[start..start + words.len()].copy_from_slice(words);
            }
        }
        Ok(())
    }
}

impl Transfer<u8> for Bus {
    type Error = ();

    fn transfer<'w>(&mut self, words: &'w mut [u8]) -> Result<&'w [u8], ()> {
        let mut chip = self.0.borrow_mut();
        chip.log.push(Event::Transfer(words.to_vec()));
        chip.transfers += 1;
        let pending = chip.pending.take();
        if chip.fail_transfer_number == Some(chip.transfers) {
            return Err(());
        }
        let (_, address) = pending.expect("a transfer follows an instruction");
        let answer = chip.answer(address, words.len());
        words.copy_from_slice(&answer);
        Ok(words)
    }
}

impl OutputPin for Line {
    type Error = ();

    fn set_low(&mut self) -> Result<(), ()> {
        let mut chip = self.0.borrow_mut();
        if chip.refuse_low {
            chip.log.push(Event::LowRefused);
            return Err(());
        }
        chip.line_low = true;
        chip.pending = None;
        chip.log.push(Event::Low);
        Ok(())
    }

    fn set_high(&mut self) -> Result<(), ()> {
        let mut chip = self.0.borrow_mut();
        if chip.refuse_high {
            chip.log.push(Event::HighRefused);
            return Err(());
        }
        chip.line_low = false;
        chip.pending = None;
        chip.log.push(Event::High);
        Ok(())
    }
}

impl StatefulOutputPin for Line {
    fn is_set_high(&self) -> Result<bool, ()> {
        if self.0.borrow().refuse_sense {
            return Err(());
        }
        Ok(!self.0.borrow().line_low)
    }

    fn is_set_low(&self) -> Result<bool, ()> {
        if self.0.borrow().refuse_sense {
            return Err(());
        }
        Ok(self.0.borrow().line_low)
    }
}

impl DelayUs<u32> for Clock {
    fn delay_us(&mut self, us: u32) {
        self.0.borrow_mut().log.push(Event::Delay(us));
    }
}

fn controller(chip: &Rc<RefCell<Chip>>) -> Controller<Bus, Line> {
    let made = Controller::new(Bus(chip.clone()), Line(chip.clone()));
    chip.borrow_mut().log.clear();
    made
}

fn settings(pll: PLL, fifo_size: u8) -> Settings<'static> {
    Settings {
        oscillator: Oscillator { pll, divider: SysClkDivider::DivByTwo },
        ioconfiguration: IOConfiguration {
            enable_tx_standby_pin: true,
            txcan_open_drain: false,
            sof_on_clko: true,
            interrupt_pin_open_drain: false,
        },
        txqueue: TxQueueConfiguration {
            message_priority: 9,
            retransmission_attempts: RetransmissionAttempts::ThreeRetries,
            fifo_size,
            payload_size: PayloadSize::Bytes32,
        },
        fifoconfigs: &[],
    }
}

fn writes_to(chip: &Rc<RefCell<Chip>>, address: u16) -> Vec<Vec<u8>> {
    let instruction = (0x2000u16 | address).to_be_bytes().to_vec();
    let log = chip.borrow().log.clone();
    let mut found = Vec::new();
    for i in 0..log.len() {
        if log[i] == Event::Write(instruction.clone()) {
            if let Some(Event::Write(payload)) = log.get(i + 1) {
                found.push(payload.clone());
            }
        }
    }
    found
}

fn reads_of(chip: &Rc<RefCell<Chip>>, address: u16) -> usize {
    let instruction = (0x3000u16 | address).to_be_bytes().to_vec();
    chip.borrow().log.iter().filter(|e| **e == Event::Write(instruction.clone())).count()
}

fn line_is_idle(chip: &Rc<RefCell<Chip>>) -> bool {
    let chip = chip.borrow();
    !chip.line_low && chip.log.last() == Some(&Event::High)
}

#[test]
fn new_drives_the_line_inactive() {
    let chip = Chip::new();
    chip.borrow_mut().line_low = true;
    let _made = Controller::new(Bus(chip.clone()), Line(chip.clone()));
    assert_eq!(chip.borrow().log, vec![Event::High]);
    assert!(!chip.borrow().line_low);
}

#[test]
fn free_gives_the_handles_back_with_the_line_inactive() {
    let chip = Chip::new();
    let made = controller(&chip);
    chip.borrow_mut().line_low = true;
    let (_bus, line) = made.free();
    assert_eq!(chip.borrow().log, vec![Event::High]);
    assert_eq!(line.is_set_low(), Ok(false));
}

#[test]
fn free_gives_back_the_transport_that_was_taken_over() {
    let chip = Chip::new();
    let other = Chip::new();
    let mut ctl = controller(&chip);
    assert_eq!(ctl.write_sfr(&SFRAddress::OSC, 1), Ok(()));
    let (bus, line) = ctl.free();
    assert!(Rc::ptr_eq(&bus.0, &chip));
    assert!(Rc::ptr_eq(&line.0, &chip));
    assert!(!Rc::ptr_eq(&bus.0, &other));
    assert_eq!(chip.borrow().log.last(), Some(&Event::High));
    assert!(other.borrow().log.is_empty());
}

#[test]
fn read_sfr_sends_read_instruction_and_decodes_little_endian() {
    let chip = Chip::new();
    chip.borrow_mut().set_word(0xE04, 0x1234_5678);
    let mut ctl = controller(&chip);
    assert_eq!(ctl.read_sfr(&SFRAddress::IOCON), Ok(0x1234_5678));
    assert_eq!(
        chip.borrow().log,
        vec![
            Event::Low,
            Event::Write(vec![0x3E, 0x04]),
            Event::Transfer(vec![0, 0, 0, 0]),
            Event::High,
        ]
    );
}

#[test]
fn write_sfr_sends_instruction_big_endian_and_value_little_endian() {
    let chip = Chip::new();
    let mut ctl = controller(&chip);
    assert_eq!(ctl.write_sfr(&SFRAddress::C1TXQCON, 0xA1B2_C3D4), Ok(()));
    assert_eq!(
        chip.borrow().log,
        vec![
            Event::Low,
            Event::Write(vec![0x20, 0x50]),
            Event::Write(vec![0xD4, 0xC3, 0xB2, 0xA1]),
            Event::High,
        ]
    );
    assert_eq!(chip.borrow().word(0x050), 0xA1B2_C3D4);
}

#[test]
fn a_line_found_active_is_released_before_it_is_claimed() {
    let chip = Chip::new();
    let mut ctl = controller(&chip);
    chip.borrow_mut().line_low = true;
    assert_eq!(ctl.read_sfr(&SFRAddress::C1CON).is_ok(), true);
    let log = chip.borrow().log.clone();
    assert_eq!(log[0], Event::High);
    assert_eq!(log[1], Event::Low);
    assert_eq!(log[2], Event::Write(vec![0x30, 0x00]));
    assert!(line_is_idle(&chip));
}

#[test]
fn read_sfr_reports_a_failed_instruction_as_write_failure() {
    let chip = Chip::new();
    chip.borrow_mut().fail_write_number = Some(1);
    let mut ctl = controller(&chip);
    assert_eq!(ctl.read_sfr(&SFRAddress::OSC), Err(Error::SPIWrite));
    assert_eq!(
        chip.borrow().log,
        vec![Event::Low, Event::Write(vec![0x3E, 0x00]), Event::High]
    );
}

#[test]
fn read_sfr_reports_a_failed_transfer_as_read_failure() {
    let chip = Chip::new();
    chip.borrow_mut().fail_transfer_number = Some(1);
    let mut ctl = controller(&chip);
    assert_eq!(ctl.read_sfr(&SFRAddress::OSC), Err(Error::SPIRead));
    assert!(line_is_idle(&chip));
}

#[test]
fn write_sfr_releases_the_line_on_either_failure() {
    for failing in 1..=2usize {
        let chip = Chip::new();
        chip.borrow_mut().fail_write_number = Some(failing);
        let mut ctl = controller(&chip);
        assert_eq!(ctl.write_sfr(&SFRAddress::OSC, 7), Err(Error::SPIWrite));
        assert!(line_is_idle(&chip));
        assert_eq!(chip.borrow().writes, failing);
    }
}

#[test]
fn reset_sends_the_reset_instruction_and_releases_the_line() {
    let chip = Chip::new();
    let mut ctl = controller(&chip);
    assert_eq!(ctl.reset(), Ok(()));
    assert_eq!(
        chip.borrow().log,
        vec![Event::Low, Event::Write(vec![0x00, 0x00]), Event::High]
    );
}

#[test]
fn reset_reports_a_failed_send() {
    let chip = Chip::new();
    chip.borrow_mut().fail_write_number = Some(1);
    let mut ctl = controller(&chip);
    assert_eq!(ctl.reset(), Err(Error::SPIWrite));
    assert!(line_is_idle(&chip));
}

#[test]
fn ram_access_below_the_window_is_refused_without_bus_traffic() {
    let chip = Chip::new();
    let mut ctl = controller(&chip);
    let mut buf = [0u8; 4];
    assert_eq!(ctl.read_ram(0x3FF, &mut buf), Err(Error::InvalidRAMAddress(0x3FF)));
    assert_eq!(ctl.write_ram(0x3FF, &[1, 2, 3, 4]), Err(Error::InvalidRAMAddress(0x3FF)));
    assert!(chip.borrow().log.is_empty());
}

#[test]
fn ram_access_of_the_whole_window_length_is_refused() {
    let chip = Chip::new();
    let mut ctl = controller(&chip);
    let mut buf = vec![0u8; 0x800];
    assert_eq!(ctl.read_ram(0x400, &mut buf), Err(Error::InvalidRAMAddress(0x400)));
    assert_eq!(ctl.write_ram(0x400, &buf), Err(Error::InvalidRAMAddress(0x400)));
    assert!(chip.borrow().log.is_empty());
}

#[test]
fn ram_access_edges() {
    let chip = Chip::new();
    let mut ctl = controller(&chip);
    let mut most = vec![0u8; 0x7FF];
    assert_eq!(ctl.read_ram(0x400, &mut most), Ok(()));
    assert_eq!(ctl.write_ram(0xBFF, &[]), Ok(()));
    assert_eq!(ctl.write_ram(0xBFF, &[1]), Err(Error::InvalidRAMAddress(0xBFF)));
    assert_eq!(ctl.write_ram(0xC00, &[]), Err(Error::InvalidRAMAddress(0xC00)));
    assert_eq!(ctl.write_ram(0xFFFF, &[1, 2]), Err(Error::InvalidRAMAddress(0xFFFF)));
    let mut huge = vec![0u8; 0x1_0000];
    assert_eq!(ctl.read_ram(0x400, &mut huge), Err(Error::InvalidRAMAddress(0x400)));
}

#[test]
fn ram_round_trip_of_four_bytes_at_the_start_of_the_window() {
    let chip = Chip::new();
    let mut ctl = controller(&chip);
    assert_eq!(ctl.write_ram(0x400, &[0xDE, 0xAD, 0xBE, 0xEF]), Ok(()));
    let mut buf = [0u8; 4];
    assert_eq!(ctl.read_ram(0x400, &mut buf), Ok(()));
    assert_eq!(buf, [0xDE, 0xAD, 0xBE, 0xEF]);
    assert_eq!(
        chip.borrow().log,
        vec![
            Event::Low,
            Event::Write(vec![0x24, 0x00]),
            Event::Write(vec![0xDE, 0xAD, 0xBE, 0xEF]),
            Event::High,
            Event::Low,
            Event::Write(vec![0x34, 0x00]),
            Event::Transfer(vec![0, 0, 0, 0]),
            Event::High,
        ]
    );
}

#[test]
fn read_ram_maps_failures_and_releases_the_line() {
    let chip = Chip::new();
    chip.borrow_mut().fail_write_number = Some(1);
    let mut ctl = controller(&chip);
    let mut buf = [9u8; 4];
    assert_eq!(ctl.read_ram(0x400, &mut buf), Err(Error::SPIWrite));
    assert_eq!(buf, [9u8; 4]);
    assert!(line_is_idle(&chip));
    chip.borrow_mut().fail_transfer_number = Some(1);
    assert_eq!(ctl.read_ram(0x400, &mut buf), Err(Error::SPIRead));
    assert!(line_is_idle(&chip));
}

#[test]
fn modify_sfr_reads_changes_and_writes_back() {
    let chip = Chip::new();
    chip.borrow_mut().pll_ready_after = None;
    chip.borrow_mut().set_word(0xE00, 0x0000_0004);
    let mut ctl = controller(&chip);
    let result = ctl.modify_sfr(OSCRegister, |mut osc: OSCRegister| {
        osc.set_pllen(true);
        osc.set_oscdis(false);
        osc
    });
    assert_eq!(result, Ok(()));
    assert_eq!(writes_to(&chip, 0xE00), vec![vec![0x01, 0, 0, 0]]);
}

#[test]
fn modify_sfr_writes_nothing_when_the_read_fails() {
    let chip = Chip::new();
    chip.borrow_mut().fail_transfer_number = Some(1);
    let mut ctl = controller(&chip);
    let result = ctl.modify_sfr(IOCONRegister, |io: IOCONRegister| io);
    assert_eq!(result, Err(Error::SPIRead));
    assert!(writes_to(&chip, 0xE04).is_empty());
    assert_eq!(chip.borrow().writes, 1);
}

#[test]
fn modify_osc_and_modify_iocon_address_their_registers() {
    let chip = Chip::new();
    chip.borrow_mut().pll_ready_after = None;
    let mut ctl = controller(&chip);
    assert_eq!(
        ctl.modify_osc(|mut osc| {
            osc.set_slckdiv(true);
            osc
        }),
        Ok(())
    );
    assert_eq!(
        ctl.modify_iocon(|mut io| {
            io.set_intod(true);
            io
        }),
        Ok(())
    );
    assert_eq!(chip.borrow().word(0xE00), 1 << 4);
    assert_eq!(chip.borrow().word(0xE04), 1 << 30);
}

#[test]
fn enable_transmit_event_fifo_sets_the_store_bit_and_the_count() {
    let chip = Chip::new();
    chip.borrow_mut().set_word(0x000, 0x0000_0001);
    chip.borrow_mut().set_word(0x040, 0x0000_0100);
    let mut ctl = controller(&chip);
    assert_eq!(ctl.enable_transmit_event_fifo(0x35), Ok(()));
    assert_eq!(writes_to(&chip, 0x000), vec![(0x0008_0001u32 | (4 << 21)).to_le_bytes().to_vec()]);
    assert_eq!(writes_to(&chip, 0x040), vec![0x0000_0105u32.to_le_bytes().to_vec()]);
}

#[test]
fn enable_transmit_event_fifo_stops_at_the_first_failure() {
    let chip = Chip::new();
    chip.borrow_mut().fail_write_number = Some(3);
    let mut ctl = controller(&chip);
    assert_eq!(ctl.enable_transmit_event_fifo(3), Err(Error::SPIWrite));
    assert_eq!(reads_of(&chip, 0x040), 0);
    assert!(line_is_idle(&chip));
}

#[test]
fn fifo_accessors_refuse_numbers_outside_1_to_31_without_bus_traffic() {
    let chip = Chip::new();
    let mut ctl = controller(&chip);
    for n in [0u8, 32, 33, 255] {
        assert_eq!(ctl.configure_fifo_control(n, |r| r), Err(Error::InvalidFIFO(n)));
        assert_eq!(ctl.read_fifo_status(n).err(), Some(Error::InvalidFIFO(n)));
        assert_eq!(ctl.write_fifo_status(n, |r| r), Err(Error::InvalidFIFO(n)));
        assert_eq!(ctl.read_fifo_user_address(n).err(), Some(Error::InvalidFIFO(n)));
        assert_eq!(ctl.write_fifo_user_address(n, |r| r), Err(Error::InvalidFIFO(n)));
    }
    assert!(chip.borrow().log.is_empty());
}

#[test]
fn fifo_accessors_reach_the_registers_of_their_fifo() {
    let chip = Chip::new();
    let mut ctl = controller(&chip);
    assert_eq!(
        ctl.configure_fifo_control(3, |mut r: ControlRegister| {
            r.set_txen(true);
            r.set_fsize(7);
            r
        }),
        Ok(())
    );
    assert_eq!(chip.borrow().word(0x05C + 24), (1 << 7) | (7 << 24));
    chip.borrow_mut().set_word(0x060 + 24, 0x0000_0305);
    let status = ctl.read_fifo_status(3).unwrap();
    assert_eq!(status.0, 0x0000_0305);
    assert_eq!(status.fifoci(), 3);
    assert_eq!(
        ctl.write_fifo_status(3, |mut r: StatusRegister| {
            r.set_tfnrfnif(false);
            r
        }),
        Ok(())
    );
    assert_eq!(chip.borrow().word(0x060 + 24), 0x0000_0304);
    chip.borrow_mut().set_word(0x064 + 24, 0x0000_0480);
    assert_eq!(ctl.read_fifo_user_address(3).unwrap().fifoua(), 0x480);
    assert_eq!(
        ctl.write_fifo_user_address(3, |mut r: UserAddressRegister| {
            r.set_fifoua(0x500);
            r
        }),
        Ok(())
    );
    assert_eq!(chip.borrow().word(0x064 + 24), 0x500);
    assert_eq!(chip.borrow().word(0x060 + 24), 0x0000_0304);
}

#[test]
fn verify_spi_communications_walks_all_32_bits() {
    let chip = Chip::new();
    let mut ctl = controller(&chip);
    assert_eq!(ctl.verify_spi_communications(), Ok(()));
    let written = writes_to(&chip, 0x400);
    assert_eq!(written.len(), 32);
    for bit in 0..32u32 {
        assert_eq!(written[bit as usize], (1u32 << bit).to_le_bytes().to_vec());
    }
    assert_eq!(reads_of(&chip, 0x400), 32);
}

#[test]
fn verify_spi_communications_stops_at_the_first_word_that_reads_back_changed() {
    let chip = Chip::new();
    chip.borrow_mut().corrupt_bit = Some(17);
    let mut ctl = controller(&chip);
    assert_eq!(ctl.verify_spi_communications(), Err(ConfigError::SPIFailedRAMEcho));
    let written = writes_to(&chip, 0x400);
    assert_eq!(written.len(), 18);
    assert_eq!(written[17], vec![0x00, 0x00, 0x02, 0x00]);
    assert_eq!(reads_of(&chip, 0x400), 18);
    assert!(line_is_idle(&chip));
}

#[test]
fn verify_spi_communications_wraps_transport_failures() {
    let chip = Chip::new();
    chip.borrow_mut().fail_transfer_number = Some(2);
    let mut ctl = controller(&chip);
    assert_eq!(ctl.verify_spi_communications(), Err(ConfigError::Other(Error::SPIRead)));
    assert_eq!(writes_to(&chip, 0x400).len(), 2);
    let chip = Chip::new();
    chip.borrow_mut().fail_write_number = Some(2);
    let mut ctl = controller(&chip);
    assert_eq!(ctl.verify_spi_communications(), Err(ConfigError::Other(Error::SPIWrite)));
}

#[test]
fn configure_succeeds_when_configuration_mode_shows_on_the_fifth_read() {
    // The chip answers four reads of the register without configuration mode, the fifth with
    // it: the read that fetches the register for the request, then four polls.
    let chip = Chip::new();
    chip.borrow_mut().config_after = Some(4);
    let mut ctl = controller(&chip);
    let mut clock = Clock(chip.clone());
    assert_eq!(ctl.configure(settings(PLL::Off, 4), &mut clock), Ok(()));
    assert_eq!(chip.borrow().c1con_reads, 5 + 1);
    let delays = chip.borrow().log.iter().filter(|e| **e == Event::Delay(500)).count();
    assert_eq!(delays, 3);
    assert_eq!(writes_to(&chip, 0xE00).len(), 1);
    assert!(line_is_idle(&chip));
}

#[test]
fn configure_succeeds_when_configuration_mode_shows_on_the_fifth_poll() {
    let chip = Chip::new();
    chip.borrow_mut().config_after = Some(1 + 4);
    let mut ctl = controller(&chip);
    let mut clock = Clock(chip.clone());
    assert_eq!(ctl.configure(settings(PLL::Off, 0), &mut clock), Ok(()));
    let log = chip.borrow().log.clone();
    let delays: Vec<usize> =
        (0..log.len()).filter(|i| matches!(log[*i], Event::Delay(_))).collect();
    assert_eq!(delays.len(), 4);
    assert!(delays.iter().all(|i| log[*i] == Event::Delay(500)));
    // The fifth poll is the last thing before the echo test: claim, instruction, transfer,
    // release, and then the first word goes to the RAM.
    let last_delay = delays[3];
    assert_eq!(log[last_delay + 2], Event::Write(vec![0x30, 0x00]));
    assert_eq!(log[last_delay + 5], Event::Low);
    assert_eq!(log[last_delay + 6], Event::Write(vec![0x24, 0x00]));
    assert_eq!(log[last_delay + 7], Event::Write(vec![1, 0, 0, 0]));
    // One read for the request, five polls, one read for the queue-enable bit.
    assert_eq!(chip.borrow().c1con_reads, 1 + 5 + 1);
}

#[test]
fn configure_needs_no_wait_when_the_first_poll_sees_configuration_mode() {
    let chip = Chip::new();
    chip.borrow_mut().config_after = Some(1);
    let mut ctl = controller(&chip);
    let mut clock = Clock(chip.clone());
    assert_eq!(ctl.configure(settings(PLL::Off, 4), &mut clock), Ok(()));
    assert!(!chip.borrow().log.contains(&Event::Delay(500)));
}

#[test]
fn configure_times_out_after_exactly_five_polls() {
    let chip = Chip::new();
    chip.borrow_mut().config_after = None;
    let mut ctl = controller(&chip);
    let mut clock = Clock(chip.clone());
    assert_eq!(
        ctl.configure(settings(PLL::Off, 4), &mut clock),
        Err(ConfigError::ConfigurationModeTimeout)
    );
    assert_eq!(chip.borrow().c1con_reads, 1 + 5);
    assert_eq!(reads_of(&chip, 0x000), 1 + 5);
    let delays: Vec<Event> =
        chip.borrow().log.iter().filter(|e| matches!(e, Event::Delay(_))).cloned().collect();
    assert_eq!(delays, vec![Event::Delay(500); 4]);
    assert!(writes_to(&chip, 0x400).is_empty());
    for address in [0x400u16, 0xE00, 0xE04, 0x050] {
        assert_eq!(reads_of(&chip, address), 0);
        assert!(writes_to(&chip, address).is_empty());
    }
    assert!(line_is_idle(&chip));
}

#[test]
fn configure_asks_for_configuration_mode_first() {
    let chip = Chip::new();
    chip.borrow_mut().config_after = Some(1);
    chip.borrow_mut().set_word(0x000, 0x0700_0760);
    let mut ctl = controller(&chip);
    let mut clock = Clock(chip.clone());
    assert_eq!(ctl.configure(settings(PLL::Off, 0), &mut clock), Ok(()));
    let first = writes_to(&chip, 0x000)[0].clone();
    assert_eq!(first, 0x0780_0760u32.to_le_bytes().to_vec());
    let log = chip.borrow().log.clone();
    assert_eq!(log[1], Event::Write(vec![0x30, 0x00]));
    assert_eq!(log[5], Event::Write(vec![0x20, 0x00]));
}

#[test]
fn configure_reports_a_failed_request_as_the_access_that_failed() {
    let chip = Chip::new();
    chip.borrow_mut().fail_transfer_number = Some(1);
    let mut ctl = controller(&chip);
    let mut clock = Clock(chip.clone());
    assert_eq!(
        ctl.configure(settings(PLL::Off, 4), &mut clock),
        Err(ConfigError::Other(Error::SPIRead))
    );
    assert_eq!(chip.borrow().writes, 1);
    assert!(line_is_idle(&chip));
    let chip = Chip::new();
    chip.borrow_mut().fail_write_number = Some(3);
    let mut ctl = controller(&chip);
    let mut clock = Clock(chip.clone());
    assert_eq!(
        ctl.configure(settings(PLL::Off, 4), &mut clock),
        Err(ConfigError::Other(Error::SPIWrite))
    );
    assert_eq!(reads_of(&chip, 0x000), 1);
}

#[test]
fn configure_tolerates_a_failed_poll_that_is_not_the_last() {
    for failing_poll in 1..=4usize {
        let chip = Chip::new();
        // The transfer of the request is the first; poll number n is transfer n + 1.
        chip.borrow_mut().fail_transfer_number = Some(1 + failing_poll);
        chip.borrow_mut().config_after = Some(failing_poll);
        let mut ctl = controller(&chip);
        let mut clock = Clock(chip.clone());
        assert_eq!(ctl.configure(settings(PLL::Off, 4), &mut clock), Ok(()));
        let delays = chip.borrow().log.iter().filter(|e| **e == Event::Delay(500)).count();
        assert_eq!(delays, failing_poll);
        assert_eq!(writes_to(&chip, 0x400).len(), 32);
    }
}

#[test]
fn configure_times_out_when_the_last_poll_fails() {
    let chip = Chip::new();
    chip.borrow_mut().fail_transfer_number = Some(1 + 5);
    chip.borrow_mut().config_after = Some(1 + 4);
    let mut ctl = controller(&chip);
    let mut clock = Clock(chip.clone());
    assert_eq!(
        ctl.configure(settings(PLL::Off, 4), &mut clock),
        Err(ConfigError::ConfigurationModeTimeout)
    );
    assert_eq!(reads_of(&chip, 0x000), 1 + 5);
    assert!(writes_to(&chip, 0x400).is_empty());
}

#[test]
fn configure_fails_on_a_corrupted_echo_and_never_programs_the_oscillator() {
    let chip = Chip::new();
    chip.borrow_mut().corrupt_bit = Some(17);
    let mut ctl = controller(&chip);
    let mut clock = Clock(chip.clone());
    assert_eq!(
        ctl.configure(settings(PLL::On, 4), &mut clock),
        Err(ConfigError::SPIFailedRAMEcho)
    );
    assert_eq!(writes_to(&chip, 0x400).len(), 18);
    assert_eq!(reads_of(&chip, 0x400), 18);
    for address in [0xE00u16, 0xE04, 0x050] {
        assert_eq!(reads_of(&chip, address), 0);
        assert!(writes_to(&chip, address).is_empty());
    }
    assert!(line_is_idle(&chip));
}

#[test]
fn configure_programs_the_oscillator_and_the_pins() {
    let chip = Chip::new();
    chip.borrow_mut().set_word(0xE00, 0x0000_0064);
    chip.borrow_mut().set_word(0xE04, 0x0300_0003);
    let mut ctl = controller(&chip);
    let mut clock = Clock(chip.clone());
    assert_eq!(ctl.configure(settings(PLL::On, 4), &mut clock), Ok(()));
    assert_eq!(writes_to(&chip, 0xE00), vec![0x0000_0171u32.to_le_bytes().to_vec()]);
    assert_eq!(
        writes_to(&chip, 0xE04),
        vec![(0x0300_0003u32 | (1 << 6) | (1 << 29)).to_le_bytes().to_vec()]
    );
}

#[test]
fn configure_skips_the_pll_wait_when_the_pll_is_off() {
    let chip = Chip::new();
    chip.borrow_mut().pll_ready_after = None;
    let mut ctl = controller(&chip);
    let mut clock = Clock(chip.clone());
    assert_eq!(ctl.configure(settings(PLL::Off, 4), &mut clock), Ok(()));
    assert_eq!(reads_of(&chip, 0xE00), 1);
}

#[test]
fn configure_reports_a_pll_that_never_locks_after_three_reads() {
    let chip = Chip::new();
    chip.borrow_mut().pll_ready_after = None;
    let mut ctl = controller(&chip);
    let mut clock = Clock(chip.clone());
    assert_eq!(ctl.configure(settings(PLL::On, 4), &mut clock), Err(ConfigError::PLLNotReady));
    assert_eq!(reads_of(&chip, 0xE00), 1 + 3);
    let delays = chip.borrow().log.iter().filter(|e| **e == Event::Delay(500)).count();
    assert_eq!(delays, 2);
    assert!(writes_to(&chip, 0xE04).is_empty());
}

#[test]
fn configure_goes_on_when_the_pll_locks_on_the_third_read() {
    let chip = Chip::new();
    chip.borrow_mut().pll_ready_after = Some(3);
    let mut ctl = controller(&chip);
    let mut clock = Clock(chip.clone());
    assert_eq!(ctl.configure(settings(PLL::On, 4), &mut clock), Ok(()));
    assert_eq!(reads_of(&chip, 0xE00), 4);
}

#[test]
fn configure_wraps_a_transport_failure_after_the_echo_test() {
    let chip = Chip::new();
    chip.borrow_mut().fail_transfer_number = Some(1 + 1 + 32 + 1);
    let mut ctl = controller(&chip);
    let mut clock = Clock(chip.clone());
    assert_eq!(
        ctl.configure(settings(PLL::Off, 4), &mut clock),
        Err(ConfigError::Other(Error::SPIRead))
    );
    assert!(writes_to(&chip, 0xE00).is_empty());
}

#[test]
fn configure_with_a_used_queue_programs_size_and_payload_and_enables_it() {
    let chip = Chip::new();
    let mut ctl = controller(&chip);
    let mut clock = Clock(chip.clone());
    assert_eq!(ctl.configure(settings(PLL::Off, 40), &mut clock), Ok(()));
    let expected: u32 = (1 << 21) | (9 << 16) | (31 << 24) | (5 << 29);
    assert_eq!(writes_to(&chip, 0x050), vec![expected.to_le_bytes().to_vec()]);
    let control = writes_to(&chip, 0x000);
    assert_eq!(control.len(), 2);
    let word = u32::from_le_bytes([control[1][0], control[1][1], control[1][2], control[1][3]]);
    assert_eq!((word >> 20) & 1, 1);
    assert_eq!((word >> 19) & 1, 0);
}

#[test]
fn configure_with_a_used_queue_that_is_enabled_already_writes_no_correction() {
    let chip = Chip::new();
    chip.borrow_mut().set_word(0x000, 1 << 20);
    let mut ctl = controller(&chip);
    let mut clock = Clock(chip.clone());
    assert_eq!(ctl.configure(settings(PLL::Off, 4), &mut clock), Ok(()));
    assert_eq!(writes_to(&chip, 0x000).len(), 1);
}

#[test]
fn configure_with_a_zero_size_queue_leaves_size_and_payload_alone() {
    let chip = Chip::new();
    let held: u32 = (0b011 << 29) | (0b10101 << 24) | 0x0000_0080;
    chip.borrow_mut().set_word(0x050, held);
    let mut ctl = controller(&chip);
    let mut clock = Clock(chip.clone());
    assert_eq!(ctl.configure(settings(PLL::Off, 0), &mut clock), Ok(()));
    let expected: u32 = held | (1 << 21) | (9 << 16);
    assert_eq!(writes_to(&chip, 0x050), vec![expected.to_le_bytes().to_vec()]);
    // The hardware has the queue disabled already: no corrective write.
    assert_eq!(writes_to(&chip, 0x000).len(), 1);
}

#[test]
fn configure_with_a_zero_size_queue_disables_a_queue_that_is_enabled() {
    let chip = Chip::new();
    chip.borrow_mut().set_word(0x000, (1 << 20) | (1 << 19) | 0x60);
    let mut ctl = controller(&chip);
    let mut clock = Clock(chip.clone());
    assert_eq!(ctl.configure(settings(PLL::Off, 0), &mut clock), Ok(()));
    let control = writes_to(&chip, 0x000);
    assert_eq!(control.len(), 2);
    let word = u32::from_le_bytes([control[1][0], control[1][1], control[1][2], control[1][3]]);
    assert_eq!((word >> 20) & 1, 0);
    assert_eq!((word >> 19) & 1, 0);
    assert_eq!(word & 0xFF, 0x60);
    // Every other bit is as the register was read: the mode it reports and the low byte.
    assert_eq!(word, (4 << 21) | 0x60);
    // The corrective write is the last transaction, after the write to the queue's register.
    let log = chip.borrow().log.clone();
    let queue_write = log.iter().position(|e| *e == Event::Write(vec![0x20, 0x50])).unwrap();
    let control_writes: Vec<usize> =
        (0..log.len()).filter(|i| log[*i] == Event::Write(vec![0x20, 0x00])).collect();
    assert_eq!(control_writes.iter().filter(|i| **i > queue_write).count(), 1);
}

#[test]
fn configure_can_be_called_again_after_a_failure() {
    let chip = Chip::new();
    chip.borrow_mut().config_after = None;
    let mut ctl = controller(&chip);
    let mut clock = Clock(chip.clone());
    assert_eq!(
        ctl.configure(settings(PLL::Off, 4), &mut clock),
        Err(ConfigError::ConfigurationModeTimeout)
    );
    chip.borrow_mut().config_after = Some(0);
    assert_eq!(ctl.configure(settings(PLL::Off, 4), &mut clock), Ok(()));
}

#[test]
fn a_refused_claim_sends_nothing_and_is_reported() {
    let chip = Chip::new();
    let mut ctl = controller(&chip);
    chip.borrow_mut().refuse_low = true;
    assert_eq!(ctl.read_sfr(&SFRAddress::OSC), Err(Error::Other));
    assert_eq!(ctl.write_sfr(&SFRAddress::OSC, 1), Err(Error::Other));
    assert_eq!(ctl.reset(), Err(Error::Other));
    let mut buf = [7u8; 4];
    assert_eq!(ctl.read_ram(0x400, &mut buf), Err(Error::Other));
    assert_eq!(buf, [7u8; 4]);
    assert_eq!(ctl.write_ram(0x400, &buf), Err(Error::Other));
    let mut expected = Vec::new();
    for _ in 0..5 {
        expected.push(Event::LowRefused);
        expected.push(Event::High);
    }
    assert_eq!(chip.borrow().log, expected);
    assert_eq!(chip.borrow().writes, 0);
    assert_eq!(chip.borrow().transfers, 0);
}

#[test]
fn a_refused_release_before_the_claim_gives_no_claim() {
    let chip = Chip::new();
    let mut ctl = controller(&chip);
    chip.borrow_mut().line_low = true;
    chip.borrow_mut().refuse_high = true;
    assert_eq!(ctl.write_sfr(&SFRAddress::OSC, 1), Err(Error::Other));
    assert_eq!(chip.borrow().log, vec![Event::HighRefused, Event::HighRefused]);
    assert_eq!(chip.borrow().writes, 0);
}

#[test]
fn a_refused_last_release_is_reported_after_the_bytes_went() {
    let chip = Chip::new();
    chip.borrow_mut().set_word(0xE04, 0x55);
    let mut ctl = controller(&chip);
    chip.borrow_mut().refuse_high = true;
    assert_eq!(ctl.read_sfr(&SFRAddress::IOCON), Err(Error::Other));
    assert_eq!(
        chip.borrow().log,
        vec![
            Event::Low,
            Event::Write(vec![0x3E, 0x04]),
            Event::Transfer(vec![0, 0, 0, 0]),
            Event::HighRefused,
        ]
    );
}

#[test]
fn a_transport_failure_comes_before_a_refused_release() {
    let chip = Chip::new();
    let mut ctl = controller(&chip);
    chip.borrow_mut().refuse_high = true;
    chip.borrow_mut().fail_write_number = Some(2);
    assert_eq!(ctl.write_sfr(&SFRAddress::OSC, 1), Err(Error::SPIWrite));
    chip.borrow_mut().line_low = false;
    chip.borrow_mut().fail_transfer_number = Some(1);
    assert_eq!(ctl.read_sfr(&SFRAddress::OSC), Err(Error::SPIRead));
}

#[test]
fn a_line_that_cannot_say_is_released_before_it_is_claimed() {
    let chip = Chip::new();
    let mut ctl = controller(&chip);
    chip.borrow_mut().refuse_sense = true;
    assert_eq!(ctl.write_sfr(&SFRAddress::OSC, 1), Ok(()));
    let log = chip.borrow().log.clone();
    assert_eq!(log[0], Event::High);
    assert_eq!(log[1], Event::Low);
    assert_eq!(log[2], Event::Write(vec![0x2E, 0x00]));
    assert_eq!(log.last(), Some(&Event::High));
}

#[test]
fn new_and_free_go_on_when_the_pin_refuses() {
    let chip = Chip::new();
    chip.borrow_mut().refuse_high = true;
    let made = Controller::new(Bus(chip.clone()), Line(chip.clone()));
    assert_eq!(chip.borrow().log, vec![Event::HighRefused]);
    let (bus, line) = made.free();
    assert_eq!(chip.borrow().log, vec![Event::HighRefused, Event::HighRefused]);
    assert!(Rc::ptr_eq(&bus.0, &chip));
    assert!(Rc::ptr_eq(&line.0, &chip));
}

#[test]
fn configure_reports_a_pin_that_refuses_the_claim() {
    let chip = Chip::new();
    let mut ctl = controller(&chip);
    chip.borrow_mut().refuse_low = true;
    let mut clock = Clock(chip.clone());
    assert_eq!(
        ctl.configure(settings(PLL::Off, 4), &mut clock),
        Err(ConfigError::Other(Error::Other))
    );
    assert_eq!(chip.borrow().writes, 0);
}

#[test]
fn config_error_wraps_every_access_error() {
    assert_eq!(ConfigError::from(Error::SPIRead), ConfigError::Other(Error::SPIRead));
    assert_eq!(ConfigError::from(Error::SPIWrite), ConfigError::Other(Error::SPIWrite));
    assert_eq!(ConfigError::from(Error::InvalidFIFO(40)), ConfigError::Other(Error::InvalidFIFO(40)));
    assert_eq!(
        ConfigError::from(Error::InvalidRAMAddress(7)),
        ConfigError::Other(Error::InvalidRAMAddress(7))
    );
    assert_eq!(ConfigError::from(Error::Other), ConfigError::Other(Error::Other));
}
