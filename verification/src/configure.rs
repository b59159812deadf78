//! The configuration sequence: from a chip in any mode to one that is programmed as the
//! settings ask.
use crate::bits::{from_le_bytes, le_bytes, to_le_bytes};
use crate::bus::{is_read, is_sfr_read, is_sfr_write, is_update, is_write, zeros, RAM_START};
use crate::generic::SFRAddress;
use crate::sequence::{
    config_mode_change, config_mode_polled, correct_queue_enable, echoed, in_configuration_mode,
    io_change,
    is_comms_verified, is_config_mode_awaited, is_config_mode_requested, is_configured,
    is_configured_from_config_mode, is_configured_from_echo, is_configured_from_oscillator,
    is_configured_from_pll, is_configured_from_request, is_echo_round, is_pll_awaited,
    is_queue_reconciled, is_tx_queue_programmed, lemma_config_mode_poll, lemma_echo_round,
    lemma_pll_poll, oscillator_change, pll_waited, program_io_word, program_oscillator_word,
    program_tx_queue_word, reports_configuration_mode, reports_pll_ready, request_word,
    tx_queue_change, uses_tx_queue, walking_bit, CONFIG_MODE_ATTEMPTS, PLL_ATTEMPTS,
    POLL_INTERVAL_US,
};
use crate::settings::{IOConfiguration, Oscillator, Settings, TxQueueConfiguration, PLL};
use crate::spi::{ConfigError, Controller, Error};
use embedded_hal::blocking::delay::DelayUs;
use embedded_hal::blocking::spi::{Transfer, Write};
use embedded_hal::digital::v2::StatefulOutputPin;
use vstd::prelude::*;

verus! {

impl<T, SS> Controller<T, SS> where T: Write<u8> + Transfer<u8>, SS: StatefulOutputPin {
    /// Asks the chip for configuration mode: reads the CAN control register and writes it back
    /// with the operating mode replaced.
    pub fn request_configuration_mode(&mut self) -> (result: Result<(), ConfigError>)
        ensures
            is_config_mode_requested(old(self).trace(), final(self).trace(), result),
    {
        let ghost before = self.trace();
        let read = self.read_sfr(&SFRAddress::C1CON);
        let ghost mid = self.trace();
        let word = match read {
            Ok(word) => word,
            Err(e) => {
                proof {
                    assert(is_update(
                        before,
                        mid,
                        SFRAddress::C1CON.spec_value(),
                        config_mode_change(),
                        Err(e),
                    ));
                }
                return Err(ConfigError::Other(e));
            },
        };
        let request = request_word(word);
        let written = self.write_sfr(&SFRAddress::C1CON, request);
        proof {
            assert(is_sfr_write(mid, self.trace(), SFRAddress::C1CON.spec_value(), request, written));
            assert(is_update(
                before,
                self.trace(),
                SFRAddress::C1CON.spec_value(),
                config_mode_change(),
                written,
            ));
        }
        match written {
            Ok(_) => Ok(()),
            Err(e) => Err(ConfigError::Other(e)),
        }
    }

    /// Waits until the chip reports configuration mode: up to five polls of the CAN control
    /// register, with a wait between any two. A poll on which the transport fails counts as a
    /// word of zero, which is not configuration mode; the fifth poll without a sighting is a
    /// timeout, whatever made it so.
    pub fn await_configuration_mode<D: DelayUs<u32>>(&mut self, delay: &mut D) -> (result: Result<
        (),
        ConfigError,
    >)
        ensures
            is_config_mode_awaited(old(self).trace(), final(self).trace(), result),
    {
        let ghost before = self.trace();
        let mut observed: u32 = 0;
        let mut polls: u8 = 0;
        loop
            invariant
                before == old(self).trace(),
                polls < CONFIG_MODE_ATTEMPTS,
                config_mode_polled(before, self.trace(), polls as nat, observed),
                polls > 0 ==> !in_configuration_mode(observed),
            decreases CONFIG_MODE_ATTEMPTS - polls,
        {
            let ghost earlier = self.trace();
            let ghost previous = observed;
            if polls > 0 {
                self.wait(delay, POLL_INTERVAL_US);
            }
            let read = self.read_sfr(&SFRAddress::C1CON);
            observed =
            match read {
                Ok(word) => word,
                Err(_) => 0,
            };
            proof {
                lemma_config_mode_poll(before, earlier, polls as nat, previous, self.trace(), read);
            }
            polls = polls + 1;
            if reports_configuration_mode(observed) {
                return Ok(());
            }
            if polls == CONFIG_MODE_ATTEMPTS {
                return Err(ConfigError::ConfigurationModeTimeout);
            }
        }
    }

    /// One round of the echo test: writes the word with only bit `bit` set to the start of the
    /// RAM and reads it back.
    fn echo_round(&mut self, bit: u32) -> (result: Result<(), ConfigError>)
        requires
            bit < 32,
        ensures
            is_echo_round(old(self).trace(), final(self).trace(), bit, result),
    {
        let ghost before = self.trace();
        let data: u32 = 1u32 << bit;
        let payload = to_le_bytes(data);
        assert(payload@.len() == 4);
        let written = self.write_ram(RAM_START, &payload);
        let ghost mid = self.trace();
        proof {
            assert(is_write(before, mid, RAM_START, le_bytes(walking_bit(bit)), written));
        }
        match written {
            Ok(_) => (),
            Err(e) => return Err(ConfigError::Other(e)),
        }
        let mut read_back_buf = [0u8; 4];
        assert(read_back_buf@ =~= zeros());
        let read = self.read_ram(RAM_START, &mut read_back_buf);
        proof {
            assert(read_back_buf@.len() == 4);
            assert(is_read(mid, self.trace(), RAM_START, zeros(), read_back_buf@, read));
        }
        match read {
            Ok(_) => (),
            Err(e) => return Err(ConfigError::Other(e)),
        }
        if from_le_bytes(&read_back_buf) != data {
            return Err(ConfigError::SPIFailedRAMEcho);
        }
        Ok(())
    }

    /// Tests the whole data path: for each of the 32 bits, the lowest first, the word with
    /// only that bit set is written to the start of the RAM and read back. The first access
    /// that fails, or the first word that reads back changed, ends the test.
    pub fn verify_spi_communications(&mut self) -> (result: Result<(), ConfigError>)
        ensures
            is_comms_verified(old(self).trace(), final(self).trace(), result),
    {
        let ghost before = self.trace();
        let mut bit: u32 = 0;
        while bit < 32
            invariant
                before == old(self).trace(),
                bit <= 32,
                echoed(before, self.trace(), bit as nat),
            decreases 32 - bit,
        {
            let ghost earlier = self.trace();
            match self.echo_round(bit) {
                Ok(_) => {
                    proof {
                        lemma_echo_round(before, earlier, bit as nat, self.trace());
                    }
                },
                Err(e) => {
                    proof {
                        assert(echoed(before, earlier, bit as nat));
                        assert(is_echo_round(earlier, self.trace(), (bit as nat) as u32, Err(e)));
                    }
                    return Err(e);
                },
            }
            bit = bit + 1;
        }
        Ok(())
    }

    /// Programs the oscillator register from the settings: PLL and divider as asked, the clock
    /// switched on.
    pub fn program_oscillator(&mut self, oscillator: &Oscillator) -> (result: Result<(), Error>)
        ensures
            is_update(
                old(self).trace(),
                final(self).trace(),
                SFRAddress::OSC.spec_value(),
                oscillator_change(*oscillator),
                result,
            ),
    {
        let word = self.read_sfr(&SFRAddress::OSC)?;
        let ghost mid = self.trace();
        let programmed = program_oscillator_word(word, oscillator);
        let result = self.write_sfr(&SFRAddress::OSC, programmed);
        proof {
            assert(is_sfr_write(
                mid,
                self.trace(),
                SFRAddress::OSC.spec_value(),
                programmed,
                result,
            ));
        }
        result
    }

    /// Waits until the oscillator register reports that the PLL has locked: up to three reads
    /// with a wait between them. A read on which the transport fails ends the wait.
    pub fn await_pll<D: DelayUs<u32>>(&mut self, delay: &mut D) -> (result: Result<(), ConfigError>)
        ensures
            is_pll_awaited(old(self).trace(), final(self).trace(), result),
    {
        let ghost before = self.trace();
        let mut polls: u8 = 0;
        loop
            invariant
                before == old(self).trace(),
                polls <= PLL_ATTEMPTS - 1,
                pll_waited(before, self.trace(), polls as nat),
            decreases PLL_ATTEMPTS - polls,
        {
            let ghost earlier = self.trace();
            let read = self.read_sfr(&SFRAddress::OSC);
            let ghost read_at = self.trace();
            proof {
                assert(is_sfr_read(earlier, read_at, SFRAddress::OSC.spec_value(), read));
            }
            let word = match read {
                Ok(word) => word,
                Err(e) => return Err(ConfigError::Other(e)),
            };
            if reports_pll_ready(word) {
                return Ok(());
            }
            if polls == PLL_ATTEMPTS - 1 {
                return Err(ConfigError::PLLNotReady);
            }
            self.wait(delay, POLL_INTERVAL_US);
            polls = polls + 1;
            proof {
                lemma_pll_poll(before, earlier, (polls - 1) as nat, read_at, word);
            }
        }
    }

    /// Programs the input/output control register from the settings.
    pub fn program_io(&mut self, io: &IOConfiguration) -> (result: Result<(), Error>)
        ensures
            is_update(
                old(self).trace(),
                final(self).trace(),
                SFRAddress::IOCON.spec_value(),
                io_change(*io),
                result,
            ),
    {
        let word = self.read_sfr(&SFRAddress::IOCON)?;
        let ghost mid = self.trace();
        let programmed = program_io_word(word, io);
        let result = self.write_sfr(&SFRAddress::IOCON, programmed);
        proof {
            assert(is_sfr_write(
                mid,
                self.trace(),
                SFRAddress::IOCON.spec_value(),
                programmed,
                result,
            ));
        }
        result
    }

    /// Brings the queue-enable bit of the CAN control register in line with whether the
    /// transmit queue is used. The register is written only where the bit differs.
    pub fn reconcile_queue_enable(&mut self, in_use: bool) -> (result: Result<(), Error>)
        ensures
            is_queue_reconciled(old(self).trace(), final(self).trace(), in_use, result),
    {
        let word = self.read_sfr(&SFRAddress::C1CON)?;
        match correct_queue_enable(word, in_use) {
            None => Ok(()),
            Some(corrected) => self.write_sfr(&SFRAddress::C1CON, corrected),
        }
    }

    /// Programs the transmit queue from the settings: retransmission attempts and priority
    /// always, depth and payload size only for a queue of one object or more; then reconciles
    /// the queue-enable bit.
    pub fn program_tx_queue(&mut self, queue: &TxQueueConfiguration) -> (result: Result<
        (),
        ConfigError,
    >)
        ensures
            is_tx_queue_programmed(old(self).trace(), final(self).trace(), *queue, result),
    {
        let ghost before = self.trace();
        let read = self.read_sfr(&SFRAddress::C1TXQCON);
        let ghost read_at = self.trace();
        let word = match read {
            Ok(word) => word,
            Err(e) => {
                proof {
                    assert(is_update(
                        before,
                        read_at,
                        SFRAddress::C1TXQCON.spec_value(),
                        tx_queue_change(*queue),
                        Err(e),
                    ));
                }
                return Err(ConfigError::Other(e));
            },
        };
        let programmed = program_tx_queue_word(word, queue);
        let updated = self.write_sfr(&SFRAddress::C1TXQCON, programmed);
        let ghost mid = self.trace();
        proof {
            assert(is_sfr_write(
                read_at,
                mid,
                SFRAddress::C1TXQCON.spec_value(),
                programmed,
                updated,
            ));
            assert(is_update(
                before,
                mid,
                SFRAddress::C1TXQCON.spec_value(),
                tx_queue_change(*queue),
                updated,
            ));
        }
        match updated {
            Ok(_) => (),
            Err(e) => return Err(ConfigError::Other(e)),
        }
        let reconciled = self.reconcile_queue_enable(queue.fifo_size > 0);
        proof {
            assert(is_queue_reconciled(mid, self.trace(), uses_tx_queue(*queue), reconciled));
        }
        match reconciled {
            Ok(_) => Ok(()),
            Err(e) => Err(ConfigError::Other(e)),
        }
    }

    /// Brings the chip into configuration mode and programs oscillator, pins and transmit
    /// queue as the settings ask. The steps run in a fixed order and the first that fails ends
    /// the call; a new call starts from the top. The FIFOs that the settings list are not
    /// programmed here: each is set up through `configure_fifo_control`.
    pub fn configure<D: DelayUs<u32>>(&mut self, settings: Settings, delay: &mut D) -> (result:
        Result<(), ConfigError>)
        ensures
            is_configured(
                old(self).trace(),
                final(self).trace(),
                settings.oscillator,
                settings.ioconfiguration,
                settings.txqueue,
                result,
            ),
    {
        let ghost t0 = self.trace();
        let requested = self.request_configuration_mode();
        let ghost t1 = self.trace();
        match requested {
            Ok(_) => (),
            Err(e) => return Err(e),
        }
        let awaited = self.await_configuration_mode(delay);
        let ghost t2 = self.trace();
        match awaited {
            Ok(_) => (),
            Err(e) => return Err(e),
        }
        let verified = self.verify_spi_communications();
        let ghost t3 = self.trace();
        match verified {
            Ok(_) => (),
            Err(e) => return Err(e),
        }
        let oscillated = self.program_oscillator(&settings.oscillator);
        let ghost t4 = self.trace();
        match oscillated {
            Ok(_) => (),
            Err(e) => return Err(ConfigError::Other(e)),
        }
        let ghost t5;
        match settings.oscillator.pll {
            PLL::On => {
                let locked = self.await_pll(delay);
                proof {
                    t5 = self.trace();
                }
                match locked {
                    Ok(_) => (),
                    Err(e) => return Err(e),
                }
            },
            PLL::Off => {
                proof {
                    t5 = t4;
                }
            },
        }
        let pins = self.program_io(&settings.ioconfiguration);
        let ghost t6 = self.trace();
        match pins {
            Ok(_) => (),
            Err(e) => {
                proof {
                    assert(is_configured_from_pll(
                        t5,
                        t6,
                        settings.ioconfiguration,
                        settings.txqueue,
                        Err(ConfigError::Other(e)),
                    ));
                }
                return Err(ConfigError::Other(e));
            },
        }
        let result = self.program_tx_queue(&settings.txqueue);
        proof {
            let t7 = self.trace();
            assert(is_configured_from_pll(
                t5,
                t7,
                settings.ioconfiguration,
                settings.txqueue,
                result,
            ));
            assert(is_configured_from_oscillator(
                t4,
                t7,
                settings.oscillator,
                settings.ioconfiguration,
                settings.txqueue,
                result,
            ));
            assert(is_configured_from_echo(
                t3,
                t7,
                settings.oscillator,
                settings.ioconfiguration,
                settings.txqueue,
                result,
            ));
            assert(is_configured_from_config_mode(
                t2,
                t7,
                settings.oscillator,
                settings.ioconfiguration,
                settings.txqueue,
                result,
            ));
            assert(is_configured_from_request(
                t1,
                t7,
                settings.oscillator,
                settings.ioconfiguration,
                settings.txqueue,
                result,
            ));
        }
        result
    }
}

} // verus!
