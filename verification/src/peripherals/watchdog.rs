//! Watchdog timer.
//!
//! Memory-mapped at 0xF60000 (port offset 0x160000 from 0xE00000), also at
//! I/O ports 0x6xxx. Registers:
//! - 0x00-0x03: current counter (read-only)
//! - 0x04-0x07: load value
//! - 0x08: restart (write 0xB9 to reload)
//! - 0x0C: control
//! - 0x10: status (read-only)
//! - 0x14-0x17: status clear (write-only)
//! - 0x18: pulse load
//! - 0x1C-0x1F: revision 0x00010602
use vstd::prelude::*;
use crate::bits::{
    byte_at,
    lane,
    lane_of,
    get_byte,
    put_byte,
    with_byte,
    le_u32,
    le_u64,
    read_le_u32,
    read_le_u64,
    put_le_u32,
    put_le_u64,
    get_le_u32,
    get_le_u64,
};

verus! {

/// Output action: reset the CPU.
pub const WATCHDOG_ACTION_RESET: u8 = 2;

/// Output action: raise a non-maskable interrupt.
pub const WATCHDOG_ACTION_NMI: u8 = 4;

/// Watchdog phase.
#[derive(Debug, Clone, Copy, PartialEq, Eq, Structural)]
pub enum WatchdogMode {
    /// Counting down.
    Counter,
    /// The counter reached zero; the expiry takes effect after a cycle.
    Expired,
    /// Driving the output pulse.
    Pulse,
    /// Reloading the counter after a restart.
    Reload,
}

/// Watchdog controller.
#[derive(Debug, Clone)]
pub struct WatchdogController {
    /// Current countdown counter.
    pub count: u32,
    /// Load (reload) value.
    pub load: u32,
    /// Control: bit 0 enable, bit 1 reset action, bit 2 NMI action, bit 4
    /// count on the 32 kHz clock.
    pub control: u8,
    /// Status (bit 0 expired).
    pub status: u8,
    /// Pulse length register.
    pub pulse_load: u8,
    /// Current pulse countdown.
    pub pulse_count: u8,
    pub mode: WatchdogMode,
    /// CPU cycles left in the expiry, reload or pulse phase.
    pub pulse_cycles_remaining: u64,
    /// Fractional accumulator for the 32 kHz clock.
    pub clock_accumulator: u64,
    /// Actions raised by register writes during an active pulse.
    pub pending_actions: u8,
    /// A restart requested on the last cycle of a pulse.
    pub pending_reload: bool,
    /// Suppress the status latch for an expiry already in flight.
    pub block_status: bool,
    /// Suppress pulse-count writes until a zero-length pulse completes.
    pub block_pulse_reload: bool,
}

/// Revision register value.
pub const WATCHDOG_REVISION: u32 = 0x00010602;

/// CPU clock in Hz for a CPU speed setting.
pub open spec fn cpu_rate(speed: u8) -> u64 {
    let s = speed & 3;
    if s == 0 {
        6_000_000
    } else if s == 1 {
        12_000_000
    } else if s == 2 {
        24_000_000
    } else {
        48_000_000
    }
}

pub open spec fn mode_code(m: WatchdogMode) -> u8 {
    match m {
        WatchdogMode::Counter => 0,
        WatchdogMode::Expired => 1,
        WatchdogMode::Pulse => 2,
        WatchdogMode::Reload => 3,
    }
}

pub open spec fn flag_byte(b: bool) -> u8 {
    if b {
        1
    } else {
        0
    }
}

impl WatchdogController {
    /// Counter and load value at power-on.
    pub const DEFAULT_LOAD: u32 = 0x03EF1480;

    /// Bytes in a snapshot.
    pub const SNAPSHOT_SIZE: usize = 32;

    pub open spec fn initial() -> Self {
        WatchdogController {
            count: Self::DEFAULT_LOAD,
            load: Self::DEFAULT_LOAD,
            control: 0,
            status: 0,
            pulse_load: 0xFF,
            pulse_count: 0xFF,
            mode: WatchdogMode::Counter,
            pulse_cycles_remaining: 0,
            clock_accumulator: 0,
            pending_actions: 0,
            pending_reload: false,
            block_status: false,
            block_pulse_reload: false,
        }
    }

    /// The byte a register read returns.
    pub open spec fn register_byte(self, addr: u32) -> u8 {
        let index = addr & 0xFF;
        if index <= 0x03 {
            byte_at(self.count, lane(addr))
        } else if 0x04 <= index <= 0x07 {
            byte_at(self.load, lane(addr))
        } else if index == 0x0C {
            self.control
        } else if index == 0x10 {
            self.status
        } else if index == 0x18 {
            self.pulse_count
        } else if 0x1C <= index <= 0x1F {
            byte_at(WATCHDOG_REVISION, lane(addr))
        } else {
            0
        }
    }

    /// The state after a register byte write.
    pub open spec fn written(self, addr: u32, value: u8) -> Self {
        let index = addr & 0xFF;
        if 0x04 <= index <= 0x07 {
            let load = with_byte(self.load, lane(addr), value);
            WatchdogController {
                load,
                count: if self.mode == WatchdogMode::Pulse && self.count == 0 {
                    load
                } else {
                    self.count
                },
                ..self
            }
        } else if index == 0x08 {
            if value != 0xB9 {
                self
            } else if self.mode == WatchdogMode::Counter && self.control & 1 != 0 {
                WatchdogController {
                    mode: WatchdogMode::Reload,
                    pulse_cycles_remaining: 2,
                    ..self
                }
            } else if self.mode == WatchdogMode::Pulse && self.pulse_cycles_remaining == 1 {
                WatchdogController { pending_reload: true, ..self }
            } else if self.mode == WatchdogMode::Counter && self.load == 0 {
                if self.pulse_count == 0 {
                    WatchdogController {
                        count: self.load,
                        mode: WatchdogMode::Pulse,
                        block_pulse_reload: true,
                        pulse_cycles_remaining: 1,
                        ..self
                    }
                } else {
                    WatchdogController { count: self.load, mode: WatchdogMode::Pulse, ..self }
                }
            } else {
                WatchdogController { count: self.load, ..self }
            }
        } else if index == 0x0C {
            let old = self.control;
            if self.mode == WatchdogMode::Pulse && value & old & 1 != 0 {
                WatchdogController {
                    control: value,
                    pending_actions: self.pending_actions | (value & !old & 0x06),
                    ..self
                }
            } else if self.mode == WatchdogMode::Pulse && value & 1 != 0 && old & 1 == 0 {
                WatchdogController {
                    control: value,
                    pending_actions: self.pending_actions | (value & 0x06),
                    pulse_cycles_remaining: (self.pulse_count + 1) as u64,
                    ..self
                }
            } else {
                WatchdogController { control: value, ..self }
            }
        } else if 0x14 <= index <= 0x17 {
            WatchdogController {
                status: 0,
                block_status: if self.mode == WatchdogMode::Expired {
                    true
                } else {
                    self.block_status
                },
                ..self
            }
        } else if 0x18 <= index <= 0x1B {
            let pl = if index == 0x18 {
                value
            } else {
                self.pulse_load
            };
            if !self.block_pulse_reload {
                WatchdogController {
                    pulse_load: pl,
                    pulse_count: pl,
                    pulse_cycles_remaining: if self.mode == WatchdogMode::Pulse {
                        (pl + 2) as u64
                    } else {
                        self.pulse_cycles_remaining
                    },
                    ..self
                }
            } else {
                WatchdogController { pulse_load: pl, ..self }
            }
        } else {
            self
        }
    }

    /// First phase of a tick: an expiry or reload in flight consumes its
    /// remaining cycles. Returns the state, the cycles left, the actions, and
    /// whether the tick ends here.
    pub open spec fn timeout_phase(self, rem: u64, actions: u8) -> (Self, u64, u8, bool) {
        if self.mode == WatchdogMode::Expired || self.mode == WatchdogMode::Reload {
            if rem < self.pulse_cycles_remaining {
                (
                    WatchdogController {
                        pulse_cycles_remaining: (self.pulse_cycles_remaining - rem) as u64,
                        ..self
                    },
                    rem,
                    actions,
                    true,
                )
            } else {
                let rem2 = (rem - self.pulse_cycles_remaining) as u64;
                if self.mode == WatchdogMode::Reload {
                    (
                        WatchdogController {
                            pulse_cycles_remaining: 0,
                            count: self.load,
                            mode: WatchdogMode::Counter,
                            ..self
                        },
                        rem2,
                        actions,
                        false,
                    )
                } else {
                    let enabled = self.control & 1 != 0;
                    (
                        WatchdogController {
                            count: self.load,
                            status: if enabled && !self.block_status {
                                1
                            } else {
                                self.status
                            },
                            block_status: false,
                            mode: WatchdogMode::Pulse,
                            pulse_cycles_remaining: (self.pulse_count + 1) as u64,
                            block_pulse_reload: if self.pulse_count == 0 {
                                true
                            } else {
                                self.block_pulse_reload
                            },
                            ..self
                        },
                        rem2,
                        if enabled {
                            actions | (self.control & 0x06)
                        } else {
                            actions
                        },
                        false,
                    )
                }
            }
        } else {
            (self, rem, actions, false)
        }
    }

    /// Second phase: an output pulse in progress consumes cycles (a disabled
    /// watchdog holds a nonzero pulse); when it ends, the watchdog reloads,
    /// expires again (counter zero) or counts.
    pub open spec fn pulse_phase(self, rem: u64) -> (Self, u64, bool) {
        if self.mode == WatchdogMode::Pulse {
            if self.control & 1 == 0 && self.pulse_count != 0 {
                (self, rem, true)
            } else {
                let consumed = if rem < self.pulse_cycles_remaining {
                    rem
                } else {
                    self.pulse_cycles_remaining
                };
                let pcr = (self.pulse_cycles_remaining - consumed) as u64;
                let rem2 = (rem - consumed) as u64;
                if pcr != 0 {
                    let pc = if pcr - 1 > 255 {
                        255u8
                    } else {
                        (pcr - 1) as u8
                    };
                    (
                        WatchdogController {
                            pulse_cycles_remaining: pcr,
                            pulse_count: pc,
                            ..self
                        },
                        rem2,
                        true,
                    )
                } else {
                    let base = WatchdogController {
                        pulse_cycles_remaining: 0,
                        pulse_count: self.pulse_load,
                        block_pulse_reload: false,
                        ..self
                    };
                    let s = if self.pending_reload {
                        WatchdogController {
                            pending_reload: false,
                            pulse_cycles_remaining: 1,
                            mode: WatchdogMode::Reload,
                            ..base
                        }
                    } else if self.count == 0 {
                        WatchdogController {
                            pulse_cycles_remaining: 1,
                            mode: WatchdogMode::Expired,
                            ..base
                        }
                    } else {
                        WatchdogController { mode: WatchdogMode::Counter, ..base }
                    };
                    (s, rem2, false)
                }
            }
        } else {
            (self, rem, false)
        }
    }

    /// Last phase: an enabled watchdog counts down by the cycles left (or by
    /// the 32 kHz ticks they make, carrying the fraction), expiring at zero.
    pub open spec fn count_phase(self, rem: u64, speed: u8) -> Self {
        if self.control & 1 == 0 || rem == 0 {
            self
        } else {
            let rate = cpu_rate(speed);
            let scaled: u64 = if rem * 32768 > u64::MAX {
                u64::MAX
            } else {
                (rem * 32768) as u64
            };
            let acc: u64 = if self.clock_accumulator + scaled > u64::MAX {
                u64::MAX
            } else {
                (self.clock_accumulator + scaled) as u64
            };
            let (ticks, s) = if self.control & 0x10 == 0 {
                (rem, self)
            } else {
                ((acc / rate) as u64, WatchdogController { clock_accumulator: acc % rate, ..self })
            };
            if ticks == 0 {
                s
            } else if ticks < s.count {
                WatchdogController { count: (s.count - ticks) as u32, ..s }
            } else {
                WatchdogController {
                    count: 0,
                    mode: WatchdogMode::Expired,
                    pulse_cycles_remaining: 1,
                    ..s
                }
            }
        }
    }

    /// The state and output actions after `cycles` CPU cycles at a speed.
    pub open spec fn ticked(self, cycles: u32, speed: u8) -> (Self, u8) {
        let s0 = WatchdogController { pending_actions: 0, ..self };
        let (s1, rem1, actions, done1) = s0.timeout_phase(cycles as u64, self.pending_actions);
        if done1 {
            (s1, actions)
        } else {
            let (s2, rem2, done2) = s1.pulse_phase(rem1);
            if done2 {
                (s2, actions)
            } else {
                (s2.count_phase(rem2, speed), actions)
            }
        }
    }

    /// The snapshot bytes: counter, load, control, status, pulse load, pulse
    /// count, mode, the three flags, pulse cycles and clock accumulator.
    pub open spec fn snapshot(self) -> Seq<u8> {
        le_u32(self.count) + le_u32(self.load) + seq![
            self.control,
            self.status,
            self.pulse_load,
            self.pulse_count,
            mode_code(self.mode),
            flag_byte(self.pending_reload),
            flag_byte(self.block_status),
            flag_byte(self.block_pulse_reload),
        ] + le_u64(self.pulse_cycles_remaining) + le_u64(self.clock_accumulator)
    }

    /// The fields a snapshot restores before its mode byte is checked.
    pub open spec fn restored_head(self, b: Seq<u8>) -> Self {
        WatchdogController {
            count: read_le_u32(b, 0),
            load: read_le_u32(b, 4),
            control: b[8],
            status: b[9],
            pulse_load: b[10],
            pulse_count: b[11],
            ..self
        }
    }

    /// The state a snapshot with a valid mode byte restores.
    pub open spec fn restored(self, b: Seq<u8>) -> Self {
        WatchdogController {
            mode: if b[12] == 0 {
                WatchdogMode::Counter
            } else if b[12] == 1 {
                WatchdogMode::Expired
            } else if b[12] == 2 {
                WatchdogMode::Pulse
            } else {
                WatchdogMode::Reload
            },
            pending_reload: b[13] != 0,
            block_status: b[14] != 0,
            block_pulse_reload: b[15] != 0,
            pulse_cycles_remaining: read_le_u64(b, 16),
            clock_accumulator: read_le_u64(b, 24),
            pending_actions: 0,
            ..self.restored_head(b)
        }
    }
}

impl WatchdogController {
    /// Power-on state: counter and load at the default, pulse length 0xFF.
    pub fn new() -> (r: Self)
        ensures
            r == Self::initial(),
    {
        WatchdogController {
            count: Self::DEFAULT_LOAD,
            load: Self::DEFAULT_LOAD,
            control: 0x00,
            status: 0x00,
            pulse_load: 0xFF,
            pulse_count: 0xFF,
            mode: WatchdogMode::Counter,
            pulse_cycles_remaining: 0,
            clock_accumulator: 0,
            pending_actions: 0,
            pending_reload: false,
            block_status: false,
            block_pulse_reload: false,
        }
    }

    /// Back to the power-on state.
    pub fn reset(&mut self)
        ensures
            *final(self) == Self::initial(),
    {
        self.count = Self::DEFAULT_LOAD;
        self.load = Self::DEFAULT_LOAD;
        self.control = 0x00;
        self.status = 0x00;
        self.pulse_load = 0xFF;
        self.pulse_count = 0xFF;
        self.mode = WatchdogMode::Counter;
        self.pulse_cycles_remaining = 0;
        self.clock_accumulator = 0;
        self.pending_actions = 0;
        self.pending_reload = false;
        self.block_status = false;
        self.block_pulse_reload = false;
    }

    /// Read a register byte.
    pub fn read(&self, addr: u32) -> (r: u8)
        ensures
            r == self.register_byte(addr),
    {
        let index = addr & 0xFF;
        let bit_offset = lane_of(addr);
        if index <= 0x03 {
            get_byte(self.count, bit_offset)
        } else if 0x04 <= index && index <= 0x07 {
            get_byte(self.load, bit_offset)
        } else if index == 0x0C {
            self.control
        } else if index == 0x10 {
            self.status
        } else if index == 0x18 {
            self.pulse_count
        } else if 0x1C <= index && index <= 0x1F {
            get_byte(WATCHDOG_REVISION, bit_offset)
        } else {
            0
        }
    }

    /// Write a register byte.
    pub fn write(&mut self, addr: u32, value: u8)
        ensures
            *final(self) == old(self).written(addr, value),
    {
        let index = addr & 0xFF;
        let bit_offset = lane_of(addr);
        if 0x04 <= index && index <= 0x07 {
            self.load = put_byte(self.load, bit_offset, value);
            if self.mode == WatchdogMode::Pulse && self.count == 0 {
                self.count = self.load;
            }
        } else if index == 0x08 {
            if value == 0xB9 {
                if self.mode == WatchdogMode::Counter && self.control & 1 != 0 {
                    self.mode = WatchdogMode::Reload;
                    self.pulse_cycles_remaining = 2;
                } else if self.mode == WatchdogMode::Pulse && self.pulse_cycles_remaining == 1 {
                    self.pending_reload = true;
                } else {
                    self.count = self.load;
                    if self.mode == WatchdogMode::Counter && self.count == 0 {
                        self.mode = WatchdogMode::Pulse;
                        if self.pulse_count == 0 {
                            self.block_pulse_reload = true;
                            self.pulse_cycles_remaining = 1;
                        }
                    }
                }
            }
        } else if index == 0x0C {
            let prev = self.control;
            self.control = value;
            if self.mode == WatchdogMode::Pulse && value & prev & 1 != 0 {
                self.pending_actions = self.pending_actions | (value & !prev & 0x06);
            } else if self.mode == WatchdogMode::Pulse && value & 1 != 0 && prev & 1 == 0 {
                self.pending_actions = self.pending_actions | (value & 0x06);
                self.pulse_cycles_remaining = self.pulse_count as u64 + 1;
            }
        } else if 0x14 <= index && index <= 0x17 {
            self.status = 0;
            if self.mode == WatchdogMode::Expired {
                self.block_status = true;
            }
        } else if 0x18 <= index && index <= 0x1B {
            if index == 0x18 {
                self.pulse_load = value;
            }
            if !self.block_pulse_reload {
                self.pulse_count = self.pulse_load;
                if self.mode == WatchdogMode::Pulse {
                    self.pulse_cycles_remaining = self.pulse_count as u64 + 2;
                }
            }
        }
    }

    /// Advance the watchdog by `cycles` CPU cycles and return the reset/NMI
    /// output actions raised.
    pub fn tick(&mut self, cycles: u32, cpu_speed: u8) -> (r: u8)
        ensures
            (*final(self), r) == old(self).ticked(cycles, cpu_speed),
    {
        let actions = self.pending_actions;
        self.pending_actions = 0;
        let (remaining_cycles, actions, done) = self.run_timeout(cycles as u64, actions);
        if done {
            return actions;
        }
        let (remaining_cycles, done) = self.run_pulse(remaining_cycles);
        if done {
            return actions;
        }
        self.run_count(remaining_cycles, cpu_speed);
        actions
    }

    /// The expiry or reload in flight consumes its remaining cycles.
    fn run_timeout(&mut self, cycles: u64, actions: u8) -> (r: (u64, u8, bool))
        ensures
            (*final(self), r.0, r.1, r.2) == old(self).timeout_phase(cycles, actions),
    {
        let mut actions = actions;
        let mut remaining_cycles = cycles;
        if self.mode == WatchdogMode::Expired || self.mode == WatchdogMode::Reload {
            if remaining_cycles < self.pulse_cycles_remaining {
                self.pulse_cycles_remaining = self.pulse_cycles_remaining - remaining_cycles;
                return (remaining_cycles, actions, true);
            }
            remaining_cycles = remaining_cycles - self.pulse_cycles_remaining;
            self.pulse_cycles_remaining = 0;
            if self.mode == WatchdogMode::Reload {
                self.count = self.load;
                self.mode = WatchdogMode::Counter;
            } else {
                self.count = self.load;
                if self.control & 1 != 0 {
                    actions = actions | (self.control & 0x06);
                    if !self.block_status {
                        self.status = 1;
                    }
                }
                self.block_status = false;
                self.mode = WatchdogMode::Pulse;
                self.pulse_cycles_remaining = self.pulse_count as u64 + 1;
                if self.pulse_count == 0 {
                    self.block_pulse_reload = true;
                }
            }
        }
        (remaining_cycles, actions, false)
    }

    /// The output pulse in progress consumes cycles.
    fn run_pulse(&mut self, cycles: u64) -> (r: (u64, bool))
        ensures
            (*final(self), r.0, r.1) == old(self).pulse_phase(cycles),
    {
        let mut remaining_cycles = cycles;
        if self.mode == WatchdogMode::Pulse {
            if self.control & 1 == 0 && self.pulse_count != 0 {
                return (remaining_cycles, true);
            }
            let consumed = if remaining_cycles < self.pulse_cycles_remaining {
                remaining_cycles
            } else {
                self.pulse_cycles_remaining
            };
            self.pulse_cycles_remaining = self.pulse_cycles_remaining - consumed;
            remaining_cycles = remaining_cycles - consumed;
            let p = self.pulse_cycles_remaining.saturating_sub(1);
            self.pulse_count = if p > 255 {
                255
            } else {
                p as u8
            };
            if self.pulse_cycles_remaining != 0 {
                return (remaining_cycles, true);
            }
            self.pulse_count = self.pulse_load;
            self.block_pulse_reload = false;
            if self.pending_reload {
                self.pending_reload = false;
                self.pulse_cycles_remaining = 1;
                self.mode = WatchdogMode::Reload;
            } else if self.count == 0 {
                self.pulse_cycles_remaining = 1;
                self.mode = WatchdogMode::Expired;
            } else {
                self.mode = WatchdogMode::Counter;
            }
        }
        (remaining_cycles, false)
    }

    /// Count down by the cycles left, or by the 32 kHz ticks they make.
    fn run_count(&mut self, remaining_cycles: u64, cpu_speed: u8)
        ensures
            *final(self) == old(self).count_phase(remaining_cycles, cpu_speed),
    {
        if self.control & 1 == 0 || remaining_cycles == 0 {
            return;
        }
        let ticks = if self.control & 0x10 == 0 {
            remaining_cycles
        } else {
            let cpu_rate: u64 = if cpu_speed & 3 == 0 {
                6_000_000
            } else if cpu_speed & 3 == 1 {
                12_000_000
            } else if cpu_speed & 3 == 2 {
                24_000_000
            } else {
                48_000_000
            };
            let scaled = match remaining_cycles.checked_mul(32_768) {
                Some(v) => v,
                None => u64::MAX,
            };
            self.clock_accumulator = self.clock_accumulator.saturating_add(scaled);
            let t = self.clock_accumulator / cpu_rate;
            self.clock_accumulator = self.clock_accumulator % cpu_rate;
            t
        };
        if ticks == 0 {
            return;
        }
        if ticks < self.count as u64 {
            self.count = self.count - ticks as u32;
            return;
        }
        self.count = 0;
        self.mode = WatchdogMode::Expired;
        self.pulse_cycles_remaining = 1;
    }

    /// Save the state as snapshot bytes.
    pub fn to_bytes(&self) -> (r: [u8; 32])
        ensures
            r@ == self.snapshot(),
    {
        let mut bytes = [0u8; 32];
        put_le_u32(&mut bytes, 0, self.count);
        put_le_u32(&mut bytes, 4, self.load);
        bytes[8] = self.control;
        bytes[9] = self.status;
        bytes[10] = self.pulse_load;
        bytes[11] = self.pulse_count;
        bytes[12] = match self.mode {
            WatchdogMode::Counter => 0,
            WatchdogMode::Expired => 1,
            WatchdogMode::Pulse => 2,
            WatchdogMode::Reload => 3,
        };
        bytes[13] = if self.pending_reload {
            1
        } else {
            0
        };
        bytes[14] = if self.block_status {
            1
        } else {
            0
        };
        bytes[15] = if self.block_pulse_reload {
            1
        } else {
            0
        };
        put_le_u64(&mut bytes, 16, self.pulse_cycles_remaining);
        put_le_u64(&mut bytes, 24, self.clock_accumulator);
        assert(bytes@ =~= self.snapshot());
        bytes
    }

    /// Restore the state from snapshot bytes. Fails with -105 when fewer than
    /// 32 bytes are given (nothing changes) or when the mode byte is above 3
    /// (the fields before it are already restored).
    pub fn from_bytes(&mut self, bytes: &[u8]) -> (r: Result<(), i32>)
        ensures
            bytes@.len() < 32 ==> r == Err::<(), i32>(-105i32) && *final(self) == *old(self),
            bytes@.len() >= 32 && bytes@[12] > 3 ==> r == Err::<(), i32>(-105i32) && *final(self)
                == old(self).restored_head(bytes@),
            bytes@.len() >= 32 && bytes@[12] <= 3 ==> r == Ok::<(), i32>(()) && *final(self)
                == old(self).restored(bytes@),
    {
        if bytes.len() < 32 {
            return Err(-105);
        }
        self.count = get_le_u32(bytes, 0);
        self.load = get_le_u32(bytes, 4);
        self.control = bytes[8];
        self.status = bytes[9];
        self.pulse_load = bytes[10];
        self.pulse_count = bytes[11];
        self.mode = if bytes[12] == 0 {
            WatchdogMode::Counter
        } else if bytes[12] == 1 {
            WatchdogMode::Expired
        } else if bytes[12] == 2 {
            WatchdogMode::Pulse
        } else if bytes[12] == 3 {
            WatchdogMode::Reload
        } else {
            return Err(-105);
        };
        self.pending_reload = bytes[13] != 0;
        self.block_status = bytes[14] != 0;
        self.block_pulse_reload = bytes[15] != 0;
        self.pulse_cycles_remaining = get_le_u64(bytes, 16);
        self.clock_accumulator = get_le_u64(bytes, 24);
        self.pending_actions = 0;
        Ok(())
    }
}

impl Default for WatchdogController {
    fn default() -> (r: Self)
        ensures
            r == Self::initial(),
    {
        Self::new()
    }
}

/// Restoring a snapshot gives back the saved state (with no pending
/// actions), whatever state it is restored into.
pub proof fn lemma_snapshot_round_trip(w: WatchdogController, other: WatchdogController)
    ensures
        w.snapshot().len() == 32,
        w.snapshot()[12] <= 3,
        other.restored(w.snapshot()) == (WatchdogController { pending_actions: 0, ..w }),
{
    let b = w.snapshot();
    assert(b.subrange(0, 4) =~= le_u32(w.count));
    assert(b.subrange(4, 8) =~= le_u32(w.load));
    assert(b.subrange(16, 24) =~= le_u64(w.pulse_cycles_remaining));
    assert(b.subrange(24, 32) =~= le_u64(w.clock_accumulator));
    crate::bits::lemma_le_u32_read(w.count, b, 0);
    crate::bits::lemma_le_u32_read(w.load, b, 4);
    crate::bits::lemma_le_u64_read(w.pulse_cycles_remaining, b, 16);
    crate::bits::lemma_le_u64_read(w.clock_accumulator, b, 24);
}

/// An enabled watchdog counting CPU cycles takes exactly the elapsed cycles
/// off its counter while they are fewer than the counter.
pub proof fn lemma_counts_down(w: WatchdogController, cycles: u32, speed: u8)
    requires
        w.mode == WatchdogMode::Counter,
        w.control & 0x11 == 1,
        0 < cycles < w.count,
    ensures
        w.ticked(cycles, speed).0.count == w.count - cycles,
        w.ticked(cycles, speed).0.mode == WatchdogMode::Counter,
        w.ticked(cycles, speed).1 == w.pending_actions,
{
    let c = w.control;
    assert(c & 0x11 == 1 ==> c & 1 != 0 && c & 0x10 == 0) by (bit_vector);
}

/// A disabled watchdog that is counting stays put: its counter does not move
/// and only the actions already pending come out.
pub proof fn lemma_disabled_holds(w: WatchdogController, cycles: u32, speed: u8)
    requires
        w.mode == WatchdogMode::Counter,
        w.control & 1 == 0,
    ensures
        w.ticked(cycles, speed).0 == (WatchdogController { pending_actions: 0, ..w }),
        w.ticked(cycles, speed).1 == w.pending_actions,
{
}

/// Writing the restart value 0xB9 to a counting, disabled watchdog reloads
/// the counter from the load value (a zero load starts the output pulse).
pub proof fn lemma_restart_reloads(w: WatchdogController)
    requires
        w.mode == WatchdogMode::Counter,
        w.control & 1 == 0,
    ensures
        w.written(0x08, 0xB9).count == w.load,
        w.load != 0 ==> w.written(0x08, 0xB9).mode == WatchdogMode::Counter,
{
    crate::bits::lemma_mask_facts();
    assert(0x08u32 & 0xFF == 0x08);
}

} // verus!
