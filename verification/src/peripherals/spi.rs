//! SPI controller.
//!
//! Port range 0xD (0xD000-0xDFFF via IN/OUT). Transfers are timed on a
//! 24 MHz SPI clock; the FIFOs are modelled by their entry counts.
use vstd::prelude::*;
use crate::bits::{lane, lane_of};

verus! {

/// RX FIFO depth.
pub const SPI_RXFIFO_DEPTH: u8 = 16;

/// TX FIFO depth.
pub const SPI_TXFIFO_DEPTH: u8 = 16;

/// Feature flags reported by the feature registers.
pub const SPI_FEATURES: u8 = 0xE;

/// Data width reported by the feature registers.
pub const SPI_WIDTH: u8 = 32;

/// SPI base clock in Hz.
pub const SPI_CLOCK_HZ: u64 = 24_000_000;

/// SPI controller.
#[derive(Debug, Clone)]
pub struct SpiController {
    /// Control register 0.
    pub cr0: u32,
    /// Control register 1 (bits 15:0 clock divider, bits 20:16 bit count - 1).
    pub cr1: u32,
    /// Control register 2 (bit 0 enable, bit 7 RX enable, bit 8 TX enable).
    pub cr2: u32,
    /// Interrupt control register.
    pub int_ctrl: u32,
    /// Interrupt status register.
    pub int_status: u32,
    /// TX FIFO valid entries (pending transfers).
    pub tfve: u8,
    /// TX FIFO index.
    pub tfvi: u8,
    /// RX FIFO valid entries.
    pub rfve: u8,
    /// RX FIFO index.
    pub rfvi: u8,
    /// Bits of the transfer in progress (0: idle).
    pub transfer_bits: u8,
    /// CPU cycle at which the transfer in progress completes.
    pub next_event_cycle: Option<u64>,
}

/// CPU clock in Hz for a CPU speed setting (low two bits).
pub open spec fn clock_hz(speed: u8) -> u32 {
    let s = speed & 3;
    if s == 0 {
        6_000_000
    } else if s == 1 {
        12_000_000
    } else if s == 2 {
        24_000_000
    } else {
        48_000_000
    }
}

/// The CPU cycle at which a transfer of `ticks` SPI ticks, started at CPU
/// cycle `base`, completes: the start is converted to SPI ticks (rounding
/// down), the ticks added, and the result converted back (rounding up or
/// down); it is never before `base + 1` (saturating).
pub open spec fn event_cycle(base: u64, speed: u8, ticks: u64, round_up: bool) -> u64 {
    let hz = clock_hz(speed) as int;
    let base_tick = (base * SPI_CLOCK_HZ) / hz;
    let next_tick = base_tick + ticks;
    let next = if round_up {
        (next_tick * hz + (SPI_CLOCK_HZ - 1)) / (SPI_CLOCK_HZ as int)
    } else {
        (next_tick * hz) / (SPI_CLOCK_HZ as int)
    };
    let lo = if base == u64::MAX {
        u64::MAX
    } else {
        (base + 1) as u64
    };
    if (next as u64) > lo {
        next as u64
    } else {
        lo
    }
}

impl SpiController {
    pub open spec fn initial() -> Self {
        SpiController {
            cr0: 0,
            cr1: 0,
            cr2: 0,
            int_ctrl: 0,
            int_status: 0,
            tfve: 0,
            tfvi: 0,
            rfve: 0,
            rfvi: 0,
            transfer_bits: 0,
            next_event_cycle: None,
        }
    }

    /// FIFO counts within the FIFO depths.
    pub open spec fn wf(self) -> bool {
        self.tfve <= SPI_TXFIFO_DEPTH && self.rfve <= SPI_RXFIFO_DEPTH
    }

    pub open spec fn enabled(self) -> bool {
        self.cr2 & 1 != 0
    }

    pub open spec fn tx_on(self) -> bool {
        self.cr2 & 0x100 != 0
    }

    pub open spec fn rx_on(self) -> bool {
        self.cr2 & 0x80 != 0
    }

    pub open spec fn flash_on(self) -> bool {
        self.cr0 & 0x800 != 0
    }

    /// Bits per transfer: CR1 bits 20:16, plus one.
    pub open spec fn bit_count(self) -> u8 {
        ((((self.cr1 >> 16u32) as u8) & 0x1F) + 1) as u8
    }

    /// Transfer duration in 24 MHz ticks: bit count times (divider + 1).
    pub open spec fn ticks(self) -> u64 {
        (self.bit_count() * ((self.cr1 & 0xFFFF) + 1)) as u64
    }

    /// A transfer can start: none in progress, the controller enabled, and
    /// either data queued for TX, or RX room (keeping one slot free when no
    /// TX data is queued, and needing TX data or flash mode when TX is on).
    pub open spec fn can_start(self) -> bool {
        &&& self.transfer_bits == 0
        &&& self.enabled()
        &&& if self.rx_on() {
            !(!self.flash_on() && self.tx_on() && self.tfve == 0) && self.rfve < (if self.tfve
                == 0 {
                15u8
            } else {
                16u8
            })
        } else {
            self.tx_on() && self.tfve != 0
        }
    }

    /// The state once a transfer starts: one TX entry consumed if TX data is
    /// available, and the transfer's bit count set.
    pub open spec fn begun(self) -> Self {
        let tx = self.tx_on() && self.tfve != 0;
        SpiController {
            tfve: if tx {
                (self.tfve - 1) as u8
            } else {
                self.tfve
            },
            tfvi: if tx {
                vstd::wrapping::u8_specs::wrapping_add(self.tfvi, 1)
            } else {
                self.tfvi
            },
            transfer_bits: self.bit_count(),
            ..self
        }
    }

    /// The state after a transfer started at CPU cycle `base`.
    pub open spec fn started(self, base: u64, speed: u8) -> Self {
        SpiController {
            next_event_cycle: Some(
                event_cycle(base, speed, self.ticks(), self.tx_on() && self.tfve != 0),
            ),
            ..self.begun()
        }
    }

    /// The state after the transfer in progress (if any) completes: one RX
    /// entry received when RX is on and the RX FIFO has room.
    pub open spec fn completed(self) -> Self {
        if self.transfer_bits != 0 {
            self.received()
        } else {
            self
        }
    }

    /// Transfer finished; one RX entry received if RX is on and there is room.
    pub open spec fn received(self) -> Self {
        let rx = self.rx_on() && self.rfve < SPI_RXFIFO_DEPTH;
        SpiController {
            transfer_bits: 0,
            next_event_cycle: None,
            rfve: if rx {
                (self.rfve + 1) as u8
            } else {
                self.rfve
            },
            rfvi: if rx {
                vstd::wrapping::u8_specs::wrapping_add(self.rfvi, 1)
            } else {
                self.rfvi
            },
            ..self
        }
    }

    /// Completes every transfer due by CPU cycle `now`, chaining the next
    /// transfer from each completion cycle.
    pub open spec fn run(self, now: u64, speed: u8) -> Self
        decreases self.tfve + (256 - self.rfve),
    {
        match self.next_event_cycle {
            Some(nc) => {
                if now < nc {
                    self
                } else {
                    let s = self.received();
                    if s.can_start() {
                        s.started(nc, speed).run(now, speed)
                    } else {
                        s
                    }
                }
            },
            None => self,
        }
    }

    /// The state after catching up to CPU cycle `now`: a disabled controller
    /// drops its transfer; an enabled one completes what is due and starts a
    /// transfer if idle.
    pub open spec fn updated(self, now: u64, speed: u8) -> Self {
        if !self.enabled() {
            SpiController { transfer_bits: 0, next_event_cycle: None, ..self }
        } else {
            let s = self.run(now, speed);
            if s.transfer_bits == 0 && s.next_event_cycle is None && s.can_start() {
                s.started(now, speed)
            } else {
                s
            }
        }
    }

    /// The status register: TX entries at bit 12, RX entries at bit 4, bit 2
    /// transfer active, bit 1 TX FIFO not full, bit 0 RX FIFO full.
    pub open spec fn status(self) -> u32 {
        ((self.tfve as u32) << 12u32) | ((self.rfve as u32) << 4u32) | ((if self.transfer_bits
            != 0 {
            1u32
        } else {
            0u32
        }) << 2u32) | ((if self.tfve < SPI_TXFIFO_DEPTH {
            1u32
        } else {
            0u32
        }) << 1u32) | (if self.rfve >= SPI_RXFIFO_DEPTH {
            1u32
        } else {
            0u32
        })
    }

    /// The feature register: flags, FIFO depths minus one, width minus one.
    pub open spec fn features() -> u32 {
        ((SPI_FEATURES as u32) << 24u32) | (((SPI_TXFIFO_DEPTH - 1) as u32) << 16u32) | (((
        SPI_RXFIFO_DEPTH - 1) as u32) << 8u32) | ((SPI_WIDTH - 1) as u32)
    }

    /// The 32-bit register a read at `addr` selects (the data register reads 0).
    pub open spec fn register(self, addr: u32) -> u32 {
        let r = addr >> 2u32;
        if r == 0 {
            self.cr0
        } else if r == 1 {
            self.cr1
        } else if r == 2 {
            self.cr2
        } else if r == 3 {
            self.status()
        } else if r == 4 {
            self.int_ctrl
        } else if r == 5 {
            self.int_status
        } else if r == 7 || r == 25 {
            Self::features()
        } else if r == 24 {
            0x00012100
        } else {
            0
        }
    }

    /// Reading byte 0 of the data register drains one RX entry.
    pub open spec fn drained(self, addr: u32) -> Self {
        if addr >> 2u32 == 6 && lane(addr) == 0 && self.rfve > 0 {
            SpiController {
                rfve: (self.rfve - 1) as u8,
                rfvi: vstd::wrapping::u8_specs::wrapping_add(self.rfvi, 1),
                ..self
            }
        } else {
            self
        }
    }

    /// The state after a register byte write.
    pub open spec fn written(self, addr: u32, value: u8) -> Self {
        let sh = lane(addr);
        let v32 = (value as u32) << sh;
        let mask = !(0xFFu32 << sh);
        let r = addr >> 2u32;
        if r == 0 {
            SpiController { cr0: (self.cr0 & mask) | (v32 & 0xFFFF), ..self }
        } else if r == 1 {
            SpiController { cr1: (self.cr1 & mask) | (v32 & 0x7FFFFF), ..self }
        } else if r == 2 {
            let s1 = if v32 & 4 != 0 {
                SpiController { rfvi: 0, rfve: 0, ..self }
            } else {
                self
            };
            let s2 = if v32 & 8 != 0 {
                SpiController { tfvi: 0, tfve: 0, ..s1 }
            } else {
                s1
            };
            SpiController { cr2: (self.cr2 & mask) | (v32 & 0xF83), ..s2 }
        } else if r == 4 {
            SpiController { int_ctrl: (self.int_ctrl & mask) | v32, ..self }
        } else if r == 6 && sh == 0 && self.tfve < SPI_TXFIFO_DEPTH {
            SpiController { tfve: (self.tfve + 1) as u8, ..self }
        } else {
            self
        }
    }

    /// A write changes what the scheduler must do: one of the enable bits of
    /// CR2 toggled, or a byte was queued for TX.
    /// The state after a write at cycle `now`: the register update, then,
    /// where the write changed the transfer state and no transfer is
    /// scheduled, the start of the next transfer at `now`.
    pub open spec fn written_at(self, addr: u32, value: u8, now: u64, speed: u8) -> Self {
        let w = self.written(addr, value);
        if self.write_changes(addr, value) && w.next_event_cycle is None && w.can_start() {
            w.started(now, speed)
        } else {
            w
        }
    }

    pub open spec fn write_changes(self, addr: u32, value: u8) -> bool {
        let r = addr >> 2u32;
        if r == 2 {
            (self.cr2 ^ self.written(addr, value).cr2) & 0x181 != 0
        } else {
            r == 6 && lane(addr) == 0 && self.tfve < SPI_TXFIFO_DEPTH
        }
    }
}

impl SpiController {
    /// An idle controller with empty FIFOs.
    pub fn new() -> (r: Self)
        ensures
            r == Self::initial(),
            r.wf(),
    {
        SpiController {
            cr0: 0,
            cr1: 0,
            cr2: 0,
            int_ctrl: 0,
            int_status: 0,
            tfve: 0,
            tfvi: 0,
            rfve: 0,
            rfvi: 0,
            transfer_bits: 0,
            next_event_cycle: None,
        }
    }

    /// Back to the power-on state.
    pub fn reset(&mut self)
        ensures
            *final(self) == Self::initial(),
    {
        *self = Self::new();
    }

    fn spi_enabled(&self) -> (r: bool)
        ensures
            r == self.enabled(),
    {
        self.cr2 & 0x1 != 0
    }

    fn tx_enabled(&self) -> (r: bool)
        ensures
            r == self.tx_on(),
    {
        self.cr2 & 0x100 != 0
    }

    fn rx_enabled(&self) -> (r: bool)
        ensures
            r == self.rx_on(),
    {
        self.cr2 & 0x80 != 0
    }

    fn flash_enabled(&self) -> (r: bool)
        ensures
            r == self.flash_on(),
    {
        self.cr0 & 0x800 != 0
    }

    /// CPU clock in Hz for a CPU speed setting.
    pub fn cpu_clock_hz(speed: u8) -> (r: u32)
        ensures
            r == clock_hz(speed),
    {
        let s = speed & 0x03;
        if s == 0 {
            6_000_000
        } else if s == 1 {
            12_000_000
        } else if s == 2 {
            24_000_000
        } else {
            48_000_000
        }
    }

    /// Bits per transfer (CR1 bits 20:16, plus one).
    pub fn transfer_bit_count(&self) -> (r: u8)
        ensures
            r == self.bit_count(),
            1 <= r <= 32,
    {
        proof {
            crate::bits::lemma_mask_facts();
        }
        ((self.cr1 >> 16) as u8 & 0x1F) + 1
    }

    /// Transfer duration in 24 MHz ticks.
    pub fn transfer_ticks(&self) -> (r: u64)
        ensures
            r == self.ticks(),
    {
        let bit_count = self.transfer_bit_count() as u64;
        proof {
            crate::bits::lemma_mask_facts();
        }
        let divider = (self.cr1 & 0xFFFF) as u64 + 1;
        let d = if divider > 1 {
            divider
        } else {
            1
        };
        assert(bit_count * d <= 32 * 0x10000) by (nonlinear_arith)
            requires
                bit_count <= 32,
                d <= 0x10000,
        ;
        bit_count * d
    }

    /// The completion cycle of a transfer of `ticks` started at `base_cycle`.
    pub fn next_event_cycle(&self, base_cycle: u64, cpu_speed: u8, ticks: u64, round_up: bool) -> (r: u64)
        ensures
            r == event_cycle(base_cycle, cpu_speed, ticks, round_up),
    {
        let cpu_hz = Self::cpu_clock_hz(cpu_speed) as u64;
        let hz = cpu_hz as u128;
        assert(6_000_000 <= hz <= 48_000_000);
        let clk = SPI_CLOCK_HZ as u128;
        let prod = (base_cycle as u128) * clk;
        let base_tick = prod / hz;
        assert(base_tick <= prod) by (nonlinear_arith)
            requires
                hz >= 1,
                base_tick == prod / hz,
        ;
        let next_tick = base_tick + ticks as u128;
        let scaled = next_tick * hz;
        assert(next_tick * hz <= 0x1_0000_0000_0000_0000 * 24_000_001 * 48_000_000) by (nonlinear_arith)
            requires
                next_tick <= 0x1_0000_0000_0000_0000 * 24_000_001,
                hz <= 48_000_000,
        ;
        let next_cycle = if round_up {
            (scaled + (clk - 1)) / clk
        } else {
            scaled / clk
        };
        let lo = base_cycle.saturating_add(1);
        let nc = next_cycle as u64;
        if nc > lo {
            nc
        } else {
            lo
        }
    }

    /// Start a transfer at CPU cycle `base_cycle` if one can start.
    fn start_transfer(&mut self, base_cycle: u64, cpu_speed: u8) -> (r: bool)
        ensures
            r == old(self).can_start(),
            *final(self) == (if r {
                old(self).started(base_cycle, cpu_speed)
            } else {
                *old(self)
            }),
    {
        if self.transfer_bits != 0 || !self.spi_enabled() {
            return false;
        }
        let tx_enabled = self.tx_enabled();
        let rx_enabled = self.rx_enabled();
        let tx_available = tx_enabled && self.tfve != 0;
        if rx_enabled {
            if !self.flash_enabled() && tx_enabled && self.tfve == 0 {
                return false;
            }
            let rfve_limit = if self.tfve == 0 {
                SPI_RXFIFO_DEPTH.saturating_sub(1)
            } else {
                SPI_RXFIFO_DEPTH
            };
            if self.rfve >= rfve_limit {
                return false;
            }
        } else if !tx_available {
            return false;
        }
        let ticks = self.transfer_ticks();
        if tx_available {
            self.tfve = self.tfve.saturating_sub(1);
            self.tfvi = self.tfvi.wrapping_add(1);
        }
        self.transfer_bits = self.transfer_bit_count();
        let next_cycle = self.next_event_cycle(base_cycle, cpu_speed, ticks, tx_available);
        self.next_event_cycle = Some(next_cycle);
        true
    }

    /// Complete every transfer due by `current_cycles` and start the next one
    /// when idle.
    fn update(&mut self, current_cycles: u64, cpu_speed: u8)
        ensures
            *final(self) == old(self).updated(current_cycles, cpu_speed),
    {
        if !self.spi_enabled() {
            self.transfer_bits = 0;
            self.next_event_cycle = None;
            return;
        }
        let ghost s0 = *self;
        loop
            invariant
                self.enabled(),
                s0.enabled(),
                s0.run(current_cycles, cpu_speed) == self.run(current_cycles, cpu_speed),
            ensures
                *self == s0.run(current_cycles, cpu_speed),
            decreases self.tfve + (256 - self.rfve),
        {
            match self.next_event_cycle {
                Some(next_cycle) => {
                    if current_cycles < next_cycle {
                        break;
                    }
                    self.transfer_bits = 0;
                    self.next_event_cycle = None;
                    if self.rx_enabled() && self.rfve < SPI_RXFIFO_DEPTH {
                        self.rfve = self.rfve.saturating_add(1);
                        self.rfvi = self.rfvi.wrapping_add(1);
                    }
                    if !self.start_transfer(next_cycle, cpu_speed) {
                        break;
                    }
                },
                None => {
                    break;
                },
            }
        }
        if self.transfer_bits == 0 && self.next_event_cycle.is_none() {
            self.start_transfer(current_cycles, cpu_speed);
        }
    }

    /// Read a register byte after catching up to `current_cycles`; reading
    /// byte 0 of the data register drains one RX entry.
    pub fn read(&mut self, addr: u32, current_cycles: u64, cpu_speed: u8) -> (r: u8)
        ensures
            r == (old(self).updated(current_cycles, cpu_speed).register(addr) >> lane(addr)) as u8,
            *final(self) == old(self).updated(current_cycles, cpu_speed).drained(addr),
            old(self).wf() ==> final(self).wf(),
    {
        proof {
            if self.wf() {
                lemma_updated_keeps_wf(*self, current_cycles, cpu_speed);
            }
        }
        self.update(current_cycles, cpu_speed);
        let shift = lane_of(addr);
        let reg_idx = addr >> 2;
        let value: u32 = if reg_idx == 0 {
            self.cr0
        } else if reg_idx == 1 {
            self.cr1
        } else if reg_idx == 2 {
            self.cr2
        } else if reg_idx == 3 {
            let tx_not_full: u32 = if self.tfve < SPI_TXFIFO_DEPTH {
                1
            } else {
                0
            };
            let rx_full: u32 = if self.rfve >= SPI_RXFIFO_DEPTH {
                1
            } else {
                0
            };
            let transfer_active: u32 = if self.transfer_bits != 0 {
                1
            } else {
                0
            };
            ((self.tfve as u32) << 12) | ((self.rfve as u32) << 4) | (transfer_active << 2) | (
            tx_not_full << 1) | rx_full
        } else if reg_idx == 4 {
            self.int_ctrl
        } else if reg_idx == 5 {
            self.int_status
        } else if reg_idx == 6 {
            if shift == 0 && self.rfve > 0 {
                self.rfve = self.rfve.saturating_sub(1);
                self.rfvi = self.rfvi.wrapping_add(1);
            }
            0
        } else if reg_idx == 7 || reg_idx == 25 {
            ((SPI_FEATURES as u32) << 24) | (((SPI_TXFIFO_DEPTH - 1) as u32) << 16) | (((
            SPI_RXFIFO_DEPTH - 1) as u32) << 8) | (SPI_WIDTH as u32 - 1)
        } else if reg_idx == 24 {
            0x00012100
        } else {
            0
        };
        (value >> shift) as u8
    }

    /// Write a register byte at cycle `current_cycles`. Returns whether the
    /// write changed what the scheduler must do (an enable bit of CR2
    /// toggled, or data was queued); on such a change, with no transfer
    /// scheduled, the next transfer starts at once, so that it completes one
    /// transfer length after the write.
    pub fn write(&mut self, addr: u32, value: u8, current_cycles: u64, cpu_speed: u8) -> (r: bool)
        ensures
            *final(self) == old(self).written_at(addr, value, current_cycles, cpu_speed),
            r == old(self).write_changes(addr, value),
            old(self).wf() ==> final(self).wf(),
    {
        let shift = lane_of(addr);
        let value32 = (value as u32) << shift;
        let mask = !(0xFFu32 << shift);
        let mut state_changed = false;
        let reg = addr >> 2;
        if reg == 0 {
            self.cr0 = (self.cr0 & mask) | (value32 & 0xFFFF);
        } else if reg == 1 {
            self.cr1 = (self.cr1 & mask) | (value32 & 0x7FFFFF);
        } else if reg == 2 {
            let old_cr2 = self.cr2;
            let mut masked_value = value32;
            if masked_value & 4 != 0 {
                self.rfvi = 0;
                self.rfve = 0;
            }
            if masked_value & 8 != 0 {
                self.tfvi = 0;
                self.tfve = 0;
            }
            masked_value = masked_value & 0xF83;
            let new_value = (self.cr2 & mask) | masked_value;
            self.cr2 = new_value;
            if (old_cr2 ^ new_value) & 0x181 != 0 {
                state_changed = true;
            }
        } else if reg == 4 {
            self.int_ctrl = (self.int_ctrl & mask) | value32;
        } else if reg == 6 {
            if shift == 0 && self.tfve < SPI_TXFIFO_DEPTH {
                self.tfve = self.tfve + 1;
                state_changed = true;
            }
        }
        if state_changed && self.next_event_cycle.is_none() {
            self.start_transfer(current_cycles, cpu_speed);
        }
        state_changed
    }

    /// Complete the transfer in progress (receiving into the RX FIFO when RX
    /// is on) and try to start the next; returns its duration in 24 MHz ticks.
    pub fn complete_transfer_and_continue(&mut self) -> (r: Option<u64>)
        ensures
            r == (if old(self).completed().can_start() {
                Some(old(self).completed().ticks())
            } else {
                None
            }),
            *final(self) == (if old(self).completed().can_start() {
                old(self).completed().begun()
            } else {
                old(self).completed()
            }),
            old(self).wf() ==> final(self).wf(),
    {
        if self.transfer_bits != 0 {
            self.transfer_bits = 0;
            self.next_event_cycle = None;
            if self.rx_enabled() && self.rfve < SPI_RXFIFO_DEPTH {
                self.rfve = self.rfve.saturating_add(1);
                self.rfvi = self.rfvi.wrapping_add(1);
            }
        }
        self.try_start_transfer_for_scheduler()
    }

    /// Start a transfer if one can start; returns its duration in 24 MHz ticks.
    pub fn try_start_transfer_for_scheduler(&mut self) -> (r: Option<u64>)
        ensures
            r == (if old(self).can_start() {
                Some(old(self).ticks())
            } else {
                None
            }),
            *final(self) == (if old(self).can_start() {
                old(self).begun()
            } else {
                *old(self)
            }),
            old(self).wf() ==> final(self).wf(),
    {
        if self.transfer_bits != 0 || !self.spi_enabled() {
            return None;
        }
        let tx_enabled = self.tx_enabled();
        let rx_enabled = self.rx_enabled();
        let tx_available = tx_enabled && self.tfve != 0;
        if rx_enabled {
            if !self.flash_enabled() && tx_enabled && self.tfve == 0 {
                return None;
            }
            let rfve_limit = if self.tfve == 0 {
                SPI_RXFIFO_DEPTH.saturating_sub(1)
            } else {
                SPI_RXFIFO_DEPTH
            };
            if self.rfve >= rfve_limit {
                return None;
            }
        } else if !tx_available {
            return None;
        }
        if tx_available {
            self.tfve = self.tfve.saturating_sub(1);
            self.tfvi = self.tfvi.wrapping_add(1);
        }
        self.transfer_bits = self.transfer_bit_count();
        let ticks = self.transfer_ticks();
        Some(ticks)
    }

    /// Drop the transfer in progress (the controller was disabled).
    pub fn cancel_transfer(&mut self)
        ensures
            *final(self) == (SpiController {
                transfer_bits: 0,
                next_event_cycle: None,
                ..*old(self)
            }),
    {
        self.transfer_bits = 0;
        self.next_event_cycle = None;
    }

    /// A transfer is in progress.
    pub fn is_transfer_active(&self) -> (r: bool)
        ensures
            r == (self.transfer_bits != 0),
    {
        self.transfer_bits != 0
    }

    /// Transfers are queued or in progress.
    pub fn has_pending_transfers(&self) -> (r: bool)
        ensures
            r == (self.tfve > 0 || self.transfer_bits > 0),
    {
        self.tfve > 0 || self.transfer_bits > 0
    }

    /// Transfer duration in 24 MHz ticks, for the scheduler.
    pub fn sched_transfer_ticks(&self) -> (r: u64)
        ensures
            r == self.ticks(),
    {
        let bit_count = self.transfer_bit_count() as u64;
        proof {
            crate::bits::lemma_mask_facts();
        }
        let divider = ((self.cr1 & 0xFFFF) + 1) as u64;
        assert(bit_count * divider <= 32 * 0x10000) by (nonlinear_arith)
            requires
                bit_count <= 32,
                divider <= 0x10000,
        ;
        bit_count * divider
    }
}

impl Default for SpiController {
    fn default() -> (r: Self)
        ensures
            r == Self::initial(),
    {
        Self::new()
    }
}

/// Completing transfers due by a cycle keeps the FIFO counts within the
/// FIFO depths.
pub proof fn lemma_run_keeps_wf(s: SpiController, now: u64, speed: u8)
    requires
        s.wf(),
    ensures
        s.run(now, speed).wf(),
    decreases s.tfve + (256 - s.rfve),
{
    if let Some(nc) = s.next_event_cycle {
        if now >= nc {
            let t = s.received();
            if t.can_start() {
                lemma_run_keeps_wf(t.started(nc, speed), now, speed);
            }
        }
    }
}

/// Catching up to a cycle keeps the FIFO counts within the FIFO depths.
pub proof fn lemma_updated_keeps_wf(s: SpiController, now: u64, speed: u8)
    requires
        s.wf(),
    ensures
        s.updated(now, speed).wf(),
{
    if s.enabled() {
        lemma_run_keeps_wf(s, now, speed);
    }
}

/// With the CPU at the SPI clock rate (24 MHz), a transfer of `ticks` SPI
/// ticks started at cycle `base` completes exactly `ticks` cycles later.
pub proof fn lemma_same_clock_exact(base: u64, speed: u8, ticks: u64, round_up: bool)
    requires
        speed & 3 == 2,
        ticks >= 1,
        base + ticks <= u64::MAX,
    ensures
        event_cycle(base, speed, ticks, round_up) == base + ticks,
{
    let b = base as int;
    assert((b * 24_000_000) / 24_000_000 == b) by (nonlinear_arith);
    let n = b + ticks;
    assert((n * 24_000_000 + 23_999_999) / 24_000_000 == n) by (nonlinear_arith)
        requires
            n >= 0,
    ;
    assert((n * 24_000_000) / 24_000_000 == n) by (nonlinear_arith);
}

} // verus!
