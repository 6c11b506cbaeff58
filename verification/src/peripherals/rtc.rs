//! Real-time clock.
//!
//! Memory-mapped at 0xF80000 (port offset 0x180000 from 0xE00000). The clock
//! runs on a 32.768 kHz crystal and a three-state machine driven by scheduler
//! events:
//! - tick: finish any pending load, then advance the time (sec, min, hour, day)
//! - latch: copy the counter to the latched registers, check for a load
//! - load-latch: copy the load registers to the latched ones, raise interrupt
use vstd::prelude::*;
use crate::bits::{byte_at, lane, lane_of, get_byte};

verus! {

/// Bits of the packed time fields (sec, min, hour).
pub const RTC_TIME_BITS: u8 = 24;

/// Bits of the packed date-time (time plus a 16-bit day).
pub const RTC_DATETIME_BITS: u8 = 40;

/// Mask of all date-time bits.
pub const RTC_DATETIME_MASK: u64 = 0xFF_FFFF_FFFF;

/// Load ticks after which each field's transfer is complete.
pub const LOAD_SEC_FINISHED: u8 = 9;

pub const LOAD_MIN_FINISHED: u8 = 17;

pub const LOAD_HOUR_FINISHED: u8 = 25;

pub const LOAD_DAY_FINISHED: u8 = 41;

/// Ticks needed for a whole load.
pub const LOAD_TOTAL_TICKS: u8 = 51;

/// A load that was requested but has not started.
pub const LOAD_PENDING: u8 = 255;

/// 32 kHz ticks per second.
pub const TICKS_PER_SECOND: u64 = 32768;

/// Ticks into each second at which the latch event fires.
pub const LATCH_TICK_OFFSET: u64 = 16429;

/// Ticks into each second at which the load-latch event fires.
pub const LOAD_LATCH_TICK_OFFSET: u64 = 16436;

/// RTC state machine mode.
#[derive(Debug, Clone, Copy, PartialEq, Eq, Structural)]
pub enum RtcMode {
    Tick,
    Latch,
    LoadLatch,
}

/// A date and time: packed as day[39:24] | hour[23:16] | min[15:8] | sec[7:0].
#[derive(Debug, Clone, Copy)]
pub struct RtcDatetime {
    pub sec: u8,
    pub min: u8,
    pub hour: u8,
    pub day: u16,
}

/// An alarm time: packed as hour[23:16] | min[15:8] | sec[7:0].
#[derive(Debug, Clone, Copy)]
pub struct RtcAlarm {
    pub sec: u8,
    pub min: u8,
    pub hour: u8,
}

impl RtcDatetime {
    pub open spec fn zero() -> Self {
        RtcDatetime { sec: 0, min: 0, hour: 0, day: 0 }
    }

    pub open spec fn packed(self) -> u64 {
        ((self.day as u64) << 24u64) | ((self.hour as u64) << 16u64) | ((self.min as u64) << 8u64)
            | (self.sec as u64)
    }

    pub open spec fn unpacked(value: u64) -> Self {
        RtcDatetime {
            sec: (value & 0xFF) as u8,
            min: ((value >> 8u64) & 0xFF) as u8,
            hour: ((value >> 16u64) & 0xFF) as u8,
            day: ((value >> 24u64) & 0xFFFF) as u16,
        }
    }

    /// Field ranges of the time: seconds and minutes below 64, hours below 32.
    pub open spec fn in_range(self) -> bool {
        self.sec < 64 && self.min < 64 && self.hour < 32
    }

    /// Pack into the 40-bit register layout.
    pub fn to_value(&self) -> (r: u64)
        ensures
            r == self.packed(),
    {
        ((self.day as u64) << 24u64) | ((self.hour as u64) << 16u64) | ((self.min as u64) << 8u64)
            | (self.sec as u64)
    }

    /// Unpack from the 40-bit register layout.
    pub fn from_value(value: u64) -> (r: Self)
        ensures
            r == Self::unpacked(value),
    {
        RtcDatetime {
            sec: (value & 0xFF) as u8,
            min: ((value >> 8u64) & 0xFF) as u8,
            hour: ((value >> 16u64) & 0xFF) as u8,
            day: ((value >> 24u64) & 0xFFFF) as u16,
        }
    }
}

impl RtcAlarm {
    pub open spec fn packed(self) -> u32 {
        ((self.hour as u32) << 16u32) | ((self.min as u32) << 8u32) | (self.sec as u32)
    }

    /// Pack into hour[23:16] | min[15:8] | sec[7:0].
    pub fn to_value(&self) -> (r: u32)
        ensures
            r == self.packed(),
    {
        ((self.hour as u32) << 16u32) | ((self.min as u32) << 8u32) | (self.sec as u32)
    }
}

/// RTC controller.
#[derive(Debug, Clone)]
pub struct RtcController {
    /// Control: bit 0 enable, bits 5:1 interrupt mask, bit 6 load, bit 7 latch enable.
    pub control: u8,
    /// Interrupt status.
    pub interrupt: u8,
    /// Load ticks processed (LOAD_PENDING: requested; LOAD_TOTAL_TICKS and up: done).
    pub load_ticks_processed: u8,
    pub mode: RtcMode,
    /// Current time.
    pub counter: RtcDatetime,
    /// Latched time.
    pub latched: RtcDatetime,
    /// Time to load into the counter.
    pub load: RtcDatetime,
    pub alarm: RtcAlarm,
}

/// Revision register value.
pub const RTC_REVISION: u32 = 0x00010500;

impl RtcController {
    pub open spec fn initial() -> Self {
        RtcController {
            control: 0,
            interrupt: 0,
            load_ticks_processed: LOAD_TOTAL_TICKS,
            mode: RtcMode::Latch,
            counter: RtcDatetime::zero(),
            latched: RtcDatetime::zero(),
            load: RtcDatetime::zero(),
            alarm: RtcAlarm { sec: 0, min: 0, hour: 0 },
        }
    }

    /// The counter and load registers hold in-range times (as register writes
    /// and the clock keep them).
    pub open spec fn wf(self) -> bool {
        self.counter.in_range() && self.load.in_range()
    }

    /// The load transfer from tick `start` to tick `end`: the load register
    /// bits from position `start` to `end` (counted from the most significant
    /// of the 40 date-time bits) replace the counter's.
    pub open spec fn loaded(self, end_tick: u8) -> Self {
        let start = self.load_ticks_processed;
        if end_tick <= start {
            self
        } else if start >= RTC_DATETIME_BITS {
            RtcController { load_ticks_processed: end_tick, ..self }
        } else {
            let eff = if end_tick >= RTC_DATETIME_BITS {
                RTC_DATETIME_BITS
            } else {
                end_tick
            };
            let wm = (RTC_DATETIME_MASK >> (start as u64)) & !(RTC_DATETIME_MASK >> (eff as u64));
            RtcController {
                load_ticks_processed: end_tick,
                control: if end_tick >= RTC_DATETIME_BITS {
                    self.control & !0x40u8
                } else {
                    self.control
                },
                counter: RtcDatetime::unpacked(
                    (self.counter.packed() & !wm) | (self.load.packed() & wm),
                ),
                ..self
            }
        }
    }

    /// The counter advanced by one second, and the interrupt bits it raises
    /// (1 second, 2 minute, 4 hour, 8 day, 16 alarm) before masking.
    pub open spec fn advanced(self) -> (RtcDatetime, u8) {
        let c = self.counter;
        let sec = (c.sec + 1) as u8;
        let (t, bits) = if sec >= 60 {
            if sec == 60 {
                let min = (c.min + 1) as u8;
                if min >= 60 {
                    if min == 60 {
                        let hour = (c.hour + 1) as u8;
                        if hour >= 24 {
                            if hour == 24 {
                                (
                                    RtcDatetime {
                                        sec: 0,
                                        min: 0,
                                        hour: 0,
                                        day: vstd::wrapping::u16_specs::wrapping_add(c.day, 1),
                                    },
                                    15u8,
                                )
                            } else {
                                (RtcDatetime { sec: 0, min: 0, hour: 0, ..c }, 7u8)
                            }
                        } else {
                            (RtcDatetime { sec: 0, min: 0, hour, ..c }, 7u8)
                        }
                    } else {
                        (RtcDatetime { sec: 0, min: 0, ..c }, 3u8)
                    }
                } else {
                    (RtcDatetime { sec: 0, min, ..c }, 3u8)
                }
            } else {
                (RtcDatetime { sec: 0, ..c }, 1u8)
            }
        } else {
            (RtcDatetime { sec, ..c }, 1u8)
        };
        let alarm_hit = (t.packed() >> 16u64) as u32 == self.alarm.packed();
        (t, if alarm_hit {
            bits | 16
        } else {
            bits
        })
    }

    /// One scheduler event: the new state, the delay in 32 kHz ticks until the
    /// next event, and whether to raise the RTC interrupt.
    pub open spec fn event(self) -> (Self, u64, bool) {
        match self.mode {
            RtcMode::Tick => {
                let s = if self.load_ticks_processed < LOAD_TOTAL_TICKS {
                    self.loaded(LOAD_TOTAL_TICKS)
                } else {
                    self
                };
                let s1 = RtcController { mode: RtcMode::Latch, ..s };
                if s1.control & 1 != 0 {
                    let (t, bits) = s1.advanced();
                    let masked = bits & (s1.control >> 1u8);
                    if masked != 0 {
                        (
                            RtcController { counter: t, interrupt: s1.interrupt | masked, ..s1 },
                            LATCH_TICK_OFFSET,
                            s1.interrupt == 0,
                        )
                    } else {
                        (RtcController { counter: t, ..s1 }, LATCH_TICK_OFFSET, false)
                    }
                } else {
                    (s1, LATCH_TICK_OFFSET, false)
                }
            },
            RtcMode::Latch => {
                let s = if self.control & 128 != 0 {
                    RtcController { latched: self.counter, ..self }
                } else {
                    self
                };
                if s.control & 64 != 0 {
                    (
                        RtcController {
                            load_ticks_processed: if s.load_ticks_processed == LOAD_PENDING {
                                0
                            } else {
                                s.load_ticks_processed
                            },
                            mode: RtcMode::LoadLatch,
                            ..s
                        },
                        (LOAD_LATCH_TICK_OFFSET - LATCH_TICK_OFFSET) as u64,
                        false,
                    )
                } else {
                    (
                        RtcController { mode: RtcMode::Tick, ..s },
                        (TICKS_PER_SECOND - LATCH_TICK_OFFSET) as u64,
                        false,
                    )
                }
            },
            RtcMode::LoadLatch => (
                RtcController {
                    latched: self.load,
                    interrupt: self.interrupt | 32,
                    mode: RtcMode::Tick,
                    ..self
                },
                (TICKS_PER_SECOND - LOAD_LATCH_TICK_OFFSET) as u64,
                true,
            ),
        }
    }

    /// The load status register: 0 when no load is in progress, else 8 plus a
    /// busy bit per field (4 seconds, 5 minutes, 6 hours, 7 day); a pending
    /// load counts as tick -1.
    pub open spec fn load_status(self) -> u8 {
        let t: int = if self.load_ticks_processed >= 128 {
            self.load_ticks_processed - 256
        } else {
            self.load_ticks_processed as int
        };
        if t >= LOAD_TOTAL_TICKS {
            0
        } else {
            8u8 | (if t < LOAD_SEC_FINISHED {
                0x10u8
            } else {
                0u8
            }) | (if t < LOAD_MIN_FINISHED {
                0x20u8
            } else {
                0u8
            }) | (if t < LOAD_HOUR_FINISHED {
                0x40u8
            } else {
                0u8
            }) | (if t < LOAD_DAY_FINISHED {
                0x80u8
            } else {
                0u8
            })
        }
    }

    /// The latched time packed as sec | min << 6 | hour << 12 | day << 17.
    pub open spec fn combined(self) -> u32 {
        (self.latched.sec as u32) | ((self.latched.min as u32) << 6u32) | ((self.latched.hour as u32)
            << 12u32) | ((self.latched.day as u32) << 17u32)
    }

    /// The byte a register read returns.
    pub open spec fn register_byte(self, addr: u32) -> u8 {
        let index = addr & 0xFF;
        if index == 0x00 {
            self.latched.sec
        } else if index == 0x04 {
            self.latched.min
        } else if index == 0x08 {
            self.latched.hour
        } else if index == 0x0C {
            (self.latched.day & 0xFF) as u8
        } else if index == 0x0D {
            ((self.latched.day >> 8u16) & 0xFF) as u8
        } else if index == 0x10 {
            self.alarm.sec
        } else if index == 0x14 {
            self.alarm.min
        } else if index == 0x18 {
            self.alarm.hour
        } else if index == 0x20 {
            self.control
        } else if index == 0x24 {
            self.load.sec
        } else if index == 0x28 {
            self.load.min
        } else if index == 0x2C {
            self.load.hour
        } else if index == 0x30 {
            (self.load.day & 0xFF) as u8
        } else if index == 0x31 {
            ((self.load.day >> 8u16) & 0xFF) as u8
        } else if index == 0x34 {
            self.interrupt
        } else if 0x3C <= index <= 0x3F {
            byte_at(RTC_REVISION, lane(addr))
        } else if index == 0x40 {
            self.load_status()
        } else if 0x44 <= index <= 0x47 {
            byte_at(self.combined(), lane(addr))
        } else {
            0
        }
    }

    /// The state after a register byte write.
    pub open spec fn written(self, addr: u32, value: u8) -> Self {
        let index = addr & 0xFF;
        if index == 0x10 {
            RtcController { alarm: RtcAlarm { sec: value & 63, ..self.alarm }, ..self }
        } else if index == 0x14 {
            RtcController { alarm: RtcAlarm { min: value & 63, ..self.alarm }, ..self }
        } else if index == 0x18 {
            RtcController { alarm: RtcAlarm { hour: value & 31, ..self.alarm }, ..self }
        } else if index == 0x20 {
            if value & 0x40 != 0 {
                RtcController {
                    load_ticks_processed: if self.control & 0x40 == 0
                        && self.load_ticks_processed >= RTC_DATETIME_BITS {
                        LOAD_PENDING
                    } else {
                        self.load_ticks_processed
                    },
                    control: value,
                    ..self
                }
            } else {
                RtcController { control: value | (self.control & 0x40), ..self }
            }
        } else if index == 0x24 {
            RtcController { load: RtcDatetime { sec: value & 63, ..self.load }, ..self }
        } else if index == 0x28 {
            RtcController { load: RtcDatetime { min: value & 63, ..self.load }, ..self }
        } else if index == 0x2C {
            RtcController { load: RtcDatetime { hour: value & 31, ..self.load }, ..self }
        } else if index == 0x30 {
            RtcController {
                load: RtcDatetime { day: (self.load.day & 0xFF00) | (value as u16), ..self.load },
                ..self
            }
        } else if index == 0x31 {
            RtcController {
                load: RtcDatetime {
                    day: (self.load.day & 0x00FF) | ((value as u16) << 8u16),
                    ..self.load
                },
                ..self
            }
        } else if index == 0x34 {
            RtcController { interrupt: self.interrupt & !value, ..self }
        } else {
            self
        }
    }
}

impl RtcController {
    /// Create an RTC: load complete, in latch mode, all registers zero.
    pub fn new() -> (r: Self)
        ensures
            r == Self::initial(),
            r.wf(),
    {
        RtcController {
            control: 0,
            interrupt: 0,
            load_ticks_processed: LOAD_TOTAL_TICKS,
            mode: RtcMode::Latch,
            counter: RtcDatetime { sec: 0, min: 0, hour: 0, day: 0 },
            latched: RtcDatetime { sec: 0, min: 0, hour: 0, day: 0 },
            load: RtcDatetime { sec: 0, min: 0, hour: 0, day: 0 },
            alarm: RtcAlarm { sec: 0, min: 0, hour: 0 },
        }
    }

    /// Reset to the power-on state.
    pub fn reset(&mut self)
        ensures
            *final(self) == Self::initial(),
            final(self).wf(),
    {
        *self = Self::new();
    }

    /// Transfer load bits into the counter up to tick `end_tick` (one bit
    /// per tick, most significant first); past the 40 date-time bits the load
    /// bit of the control register clears.
    pub fn process_load(&mut self, end_tick: u8)
        requires
            old(self).wf(),
        ensures
            *final(self) == old(self).loaded(end_tick),
            final(self).wf(),
    {
        proof {
            lemma_loaded_in_range(*self, end_tick);
        }
        let start_tick = self.load_ticks_processed;
        if end_tick <= start_tick {
            return;
        }
        self.load_ticks_processed = end_tick;
        if start_tick >= RTC_DATETIME_BITS {
            return;
        }
        let effective_end = if end_tick >= RTC_DATETIME_BITS {
            self.control = self.control & !0x40u8;
            RTC_DATETIME_BITS
        } else {
            end_tick
        };
        let write_mask = (RTC_DATETIME_MASK >> (start_tick as u64)) & !(RTC_DATETIME_MASK
            >> (effective_end as u64));
        let counter_val = self.counter.to_value();
        let load_val = self.load.to_value();
        self.counter = RtcDatetime::from_value((counter_val & !write_mask) | (load_val & write_mask));
    }

    /// Read a register byte; reads have no side effects.
    pub fn read(&mut self, addr: u32, _current_cycles: u64, _cpu_speed: u8) -> (r: u8)
        ensures
            r == old(self).register_byte(addr),
            *final(self) == *old(self),
    {
        let index = addr & 0xFF;
        if index == 0x00 {
            self.latched.sec
        } else if index == 0x04 {
            self.latched.min
        } else if index == 0x08 {
            self.latched.hour
        } else if index == 0x0C {
            (self.latched.day & 0xFF) as u8
        } else if index == 0x0D {
            ((self.latched.day >> 8u16) & 0xFF) as u8
        } else if index == 0x10 {
            self.alarm.sec
        } else if index == 0x14 {
            self.alarm.min
        } else if index == 0x18 {
            self.alarm.hour
        } else if index == 0x20 {
            self.control
        } else if index == 0x24 {
            self.load.sec
        } else if index == 0x28 {
            self.load.min
        } else if index == 0x2C {
            self.load.hour
        } else if index == 0x30 {
            (self.load.day & 0xFF) as u8
        } else if index == 0x31 {
            ((self.load.day >> 8u16) & 0xFF) as u8
        } else if index == 0x34 {
            self.interrupt
        } else if 0x3C <= index && index <= 0x3F {
            get_byte(RTC_REVISION, lane_of(addr))
        } else if index == 0x40 {
            let ltp = self.load_ticks_processed;
            let ticks: i16 = if ltp >= 128 {
                ltp as i16 - 256
            } else {
                ltp as i16
            };
            if ticks >= LOAD_TOTAL_TICKS as i16 {
                0
            } else {
                8u8 | (if ticks < LOAD_SEC_FINISHED as i16 {
                    0x10u8
                } else {
                    0u8
                }) | (if ticks < LOAD_MIN_FINISHED as i16 {
                    0x20u8
                } else {
                    0u8
                }) | (if ticks < LOAD_HOUR_FINISHED as i16 {
                    0x40u8
                } else {
                    0u8
                }) | (if ticks < LOAD_DAY_FINISHED as i16 {
                    0x80u8
                } else {
                    0u8
                })
            }
        } else if 0x44 <= index && index <= 0x47 {
            let combined = (self.latched.sec as u32) | ((self.latched.min as u32) << 6u32) | ((
            self.latched.hour as u32) << 12u32) | ((self.latched.day as u32) << 17u32);
            get_byte(combined, lane_of(addr))
        } else {
            0
        }
    }

    /// Write a register byte. Alarm and load fields are masked to their
    /// ranges; setting control bit 6 requests a load (once any previous load
    /// finished), and the load bit cannot be cleared by a write; writing the
    /// interrupt register clears the written bits.
    pub fn write(&mut self, addr: u32, value: u8, _current_cycles: u64, _cpu_speed: u8)
        ensures
            *final(self) == old(self).written(addr, value),
            old(self).wf() ==> final(self).wf(),
    {
        let index = addr & 0xFF;
        assert((value & 63) < 64 && (value & 31) < 32) by (bit_vector);
        if index == 0x10 {
            self.alarm.sec = value & 63;
        } else if index == 0x14 {
            self.alarm.min = value & 63;
        } else if index == 0x18 {
            self.alarm.hour = value & 31;
        } else if index == 0x20 {
            if value & 0x40 != 0 {
                if self.control & 0x40 == 0 {
                    if self.load_ticks_processed >= RTC_DATETIME_BITS {
                        self.load_ticks_processed = LOAD_PENDING;
                    }
                }
                self.control = value;
            } else {
                self.control = value | (self.control & 0x40);
            }
        } else if index == 0x24 {
            self.load.sec = value & 63;
        } else if index == 0x28 {
            self.load.min = value & 63;
        } else if index == 0x2C {
            self.load.hour = value & 31;
        } else if index == 0x30 {
            self.load.day = (self.load.day & 0xFF00) | (value as u16);
        } else if index == 0x31 {
            self.load.day = (self.load.day & 0x00FF) | ((value as u16) << 8u16);
        } else if index == 0x34 {
            self.interrupt = self.interrupt & !value;
        }
    }

    /// Periodic tick; the clock is driven by scheduler events instead.
    pub fn tick(&mut self, _cycles: u32) -> (r: bool)
        ensures
            !r,
            *final(self) == *old(self),
    {
        false
    }

    /// Current state machine mode.
    pub fn mode(&self) -> (r: RtcMode)
        ensures
            r == self.mode,
    {
        self.mode
    }

    /// A load was requested and needs scheduling.
    pub fn needs_load_scheduled(&self) -> (r: bool)
        ensures
            r == (self.load_ticks_processed == LOAD_PENDING),
    {
        self.load_ticks_processed == LOAD_PENDING
    }

    /// Process a scheduler event. Returns the delay in 32 kHz ticks until the
    /// next event and whether to raise the RTC interrupt.
    pub fn process_event(&mut self) -> (r: (u64, bool))
        requires
            old(self).wf(),
        ensures
            *final(self) == old(self).event().0,
            r == (old(self).event().1, old(self).event().2),
            final(self).wf(),
    {
        match self.mode {
            RtcMode::Tick => {
                if self.load_ticks_processed < LOAD_TOTAL_TICKS {
                    self.process_load(LOAD_TOTAL_TICKS);
                }
                self.mode = RtcMode::Latch;
                let delay = LATCH_TICK_OFFSET;
                let mut raise_interrupt = false;
                if self.control & 1 != 0 {
                    let ghost before = *self;
                    let mut interrupts: u8;
                    self.counter.sec = self.counter.sec + 1;
                    if self.counter.sec >= 60 {
                        if self.counter.sec == 60 {
                            self.counter.min = self.counter.min + 1;
                            if self.counter.min >= 60 {
                                if self.counter.min == 60 {
                                    self.counter.hour = self.counter.hour + 1;
                                    if self.counter.hour >= 24 {
                                        if self.counter.hour == 24 {
                                            interrupts = 15;
                                            self.counter.day = self.counter.day.wrapping_add(1);
                                        } else {
                                            interrupts = 7;
                                        }
                                        self.counter.hour = 0;
                                    } else {
                                        interrupts = 7;
                                    }
                                } else {
                                    interrupts = 3;
                                }
                                self.counter.min = 0;
                            } else {
                                interrupts = 3;
                            }
                        } else {
                            interrupts = 1;
                        }
                        self.counter.sec = 0;
                    } else {
                        interrupts = 1;
                    }
                    let counter_time = (self.counter.to_value() >> 16u64) as u32;
                    if counter_time == self.alarm.to_value() {
                        interrupts = interrupts | 16;
                    }
                    assert((self.counter, interrupts) == before.advanced());
                    interrupts = interrupts & (self.control >> 1u8);
                    if interrupts != 0 {
                        if self.interrupt == 0 {
                            raise_interrupt = true;
                        }
                        self.interrupt = self.interrupt | interrupts;
                    }
                }
                (delay, raise_interrupt)
            },
            RtcMode::Latch => {
                if self.control & 128 != 0 {
                    self.latched = self.counter;
                }
                if self.control & 64 != 0 {
                    if self.load_ticks_processed == LOAD_PENDING {
                        self.load_ticks_processed = 0;
                    }
                    self.mode = RtcMode::LoadLatch;
                    (LOAD_LATCH_TICK_OFFSET - LATCH_TICK_OFFSET, false)
                } else {
                    self.mode = RtcMode::Tick;
                    (TICKS_PER_SECOND - LATCH_TICK_OFFSET, false)
                }
            },
            RtcMode::LoadLatch => {
                self.latched = self.load;
                self.interrupt = self.interrupt | 32;
                self.mode = RtcMode::Tick;
                (TICKS_PER_SECOND - LOAD_LATCH_TICK_OFFSET, true)
            },
        }
    }

    /// Advance a load by one tick (a pending load starts at tick 0).
    pub fn advance_load(&mut self)
        requires
            old(self).wf(),
        ensures
            old(self).load_ticks_processed == LOAD_PENDING ==> *final(self) == (RtcController {
                load_ticks_processed: 0,
                ..*old(self)
            }),
            old(self).load_ticks_processed < LOAD_TOTAL_TICKS ==> *final(self) == old(self).loaded(
                (old(self).load_ticks_processed + 1) as u8,
            ),
            old(self).load_ticks_processed != LOAD_PENDING && old(self).load_ticks_processed
                >= LOAD_TOTAL_TICKS ==> *final(self) == *old(self),
            final(self).wf(),
    {
        if self.load_ticks_processed == LOAD_PENDING {
            self.load_ticks_processed = 0;
        } else if self.load_ticks_processed < LOAD_TOTAL_TICKS {
            self.process_load(self.load_ticks_processed + 1);
        }
    }

    /// A started load still needs ticks.
    pub fn needs_more_ticks(&self) -> (r: bool)
        ensures
            r == (self.load_ticks_processed != LOAD_PENDING && self.load_ticks_processed
                < LOAD_TOTAL_TICKS),
    {
        self.load_ticks_processed != LOAD_PENDING && self.load_ticks_processed < LOAD_TOTAL_TICKS
    }

    /// Mark a pending load as started.
    pub fn start_load_ticks(&mut self)
        ensures
            *final(self) == (if old(self).load_ticks_processed == LOAD_PENDING {
                RtcController { load_ticks_processed: 0, ..*old(self) }
            } else {
                *old(self)
            }),
    {
        if self.load_ticks_processed == LOAD_PENDING {
            self.load_ticks_processed = 0;
        }
    }

    /// An RTC interrupt is active.
    pub fn has_interrupt(&self) -> (r: bool)
        ensures
            r == (self.interrupt != 0),
    {
        self.interrupt != 0
    }
}

impl Default for RtcController {
    fn default() -> (r: Self)
        ensures
            r == Self::initial(),
    {
        Self::new()
    }
}

/// A load transfer keeps the counter's fields in range.
pub proof fn lemma_loaded_in_range(s: RtcController, end_tick: u8)
    requires
        s.wf(),
    ensures
        s.loaded(end_tick).wf(),
{
    let start = s.load_ticks_processed;
    if end_tick > start && start < RTC_DATETIME_BITS {
        let eff = if end_tick >= RTC_DATETIME_BITS {
            RTC_DATETIME_BITS
        } else {
            end_tick
        };
        let wm = (RTC_DATETIME_MASK >> (start as u64)) & !(RTC_DATETIME_MASK >> (eff as u64));
        let (cs, cm, ch, cd) = (s.counter.sec as u64, s.counter.min as u64, s.counter.hour as u64, s.counter.day as u64);
        let (ls, lm, lh, ld) = (s.load.sec as u64, s.load.min as u64, s.load.hour as u64, s.load.day as u64);
        let v = (((cd << 24u64) | (ch << 16u64) | (cm << 8u64) | cs) & !wm) | (((ld << 24u64) | (lh
            << 16u64) | (lm << 8u64) | ls) & wm);
        assert((v & 0xFF) < 64 && ((v >> 8u64) & 0xFF) < 64 && ((v >> 16u64) & 0xFF) < 32)
            by (bit_vector)
            requires
                cs < 64,
                cm < 64,
                ch < 32,
                ls < 64,
                lm < 64,
                lh < 32,
                cd < 0x10000,
                ld < 0x10000,
                v == (((cd << 24u64) | (ch << 16u64) | (cm << 8u64) | cs) & !wm) | (((ld << 24u64)
                    | (lh << 16u64) | (lm << 8u64) | ls) & wm),
        ;
    }
}

/// Seconds since day 0 of a date and time.
pub open spec fn clock_seconds(t: RtcDatetime) -> int {
    t.day * 86400 + t.hour * 3600 + t.min * 60 + t.sec
}

/// A proper clock time: seconds and minutes below 60, hours below 24.
pub open spec fn valid_time(t: RtcDatetime) -> bool {
    t.sec < 60 && t.min < 60 && t.hour < 24
}

/// Packing and unpacking the 40-bit date-time are inverse: unpacking a packed
/// time gives it back, and packing an unpacked value keeps its low 40 bits
/// (unpacking reads nothing else).
pub proof fn lemma_datetime_round_trip(d: RtcDatetime, v: u64)
    ensures
        RtcDatetime::unpacked(d.packed()) == d,
        RtcDatetime::unpacked(v).packed() == v & RTC_DATETIME_MASK,
        RtcDatetime::unpacked(v & RTC_DATETIME_MASK) == RtcDatetime::unpacked(v),
        d.packed() <= RTC_DATETIME_MASK,
{
    crate::bits::lemma_mask_facts();
    let (s, m, h, dd) = (d.sec as u64, d.min as u64, d.hour as u64, d.day as u64);
    let p = (dd << 24u64) | (h << 16u64) | (m << 8u64) | s;
    let w = v & 0xFF_FFFF_FFFF;
    assert(p <= 0xFF_FFFF_FFFF && (p & 0xFF) == s && ((p >> 8u64) & 0xFF) == m && ((p >> 16u64) & 0xFF) == h && ((p
        >> 24u64) & 0xFFFF) == dd && (((((v >> 24u64) & 0xFFFF) << 24u64) | (((v >> 16u64) & 0xFF)
        << 16u64) | (((v >> 8u64) & 0xFF) << 8u64) | (v & 0xFF)) == w) && (w & 0xFF) == (v & 0xFF)
        && ((w >> 8u64) & 0xFF) == ((v >> 8u64) & 0xFF) && ((w >> 16u64) & 0xFF) == ((v >> 16u64)
        & 0xFF) && ((w >> 24u64) & 0xFFFF) == ((v >> 24u64) & 0xFFFF)) by (bit_vector)
        requires
            s < 0x100,
            m < 0x100,
            h < 0x100,
            dd < 0x10000,
            p == (dd << 24u64) | (h << 16u64) | (m << 8u64) | s,
            w == v & 0xFF_FFFF_FFFF,
    ;
}

/// The interrupt bits a clock tick raises (before masking), by what the
/// second rolls over: the second bit (1) always; the minute bit (2) as well
/// when the seconds go from 59 to 0; the hour bit (4) as well when the
/// minutes also wrap; the day bit (8) as well when the hours also wrap; and
/// in any case the alarm bit (16) on top when the new time matches the
/// alarm.
pub proof fn lemma_tick_interrupt_bits(s: RtcController)
    requires
        valid_time(s.counter),
    ensures
        ({
            let c = s.counter;
            let bits = s.advanced().1;
            let base: u8 = if c.sec < 59 {
                1
            } else if c.min < 59 {
                3
            } else if c.hour < 23 {
                7
            } else {
                15
            };
            bits == base || bits == base | 16
        }),
{
}

/// A tick event with the clock running (and no load left to finish)
/// advances the counter as `lemma_tick_adds_one_second` says and sets in the
/// interrupt register the raised bits that the control register enables
/// (control bit k + 1 enables interrupt bit k), the others kept.
pub proof fn lemma_tick_event_interrupts(s: RtcController)
    requires
        s.mode == RtcMode::Tick,
        s.load_ticks_processed >= LOAD_TOTAL_TICKS,
        s.control & 1 != 0,
    ensures
        s.event().0.counter == s.advanced().0,
        s.event().0.interrupt == s.interrupt | (s.advanced().1 & (s.control >> 1u8)),
        s.event().1 == LATCH_TICK_OFFSET,
{
    crate::bits::lemma_mask_facts();
}

/// With the clock enabled, a tick event advances a proper clock time by
/// exactly one second, wrapping after day 65535.
pub proof fn lemma_tick_adds_one_second(s: RtcController)
    requires
        valid_time(s.counter),
    ensures
        valid_time(s.advanced().0),
        clock_seconds(s.advanced().0) == (clock_seconds(s.counter) + 1) % (65536 * 86400) as int,
{
    let c = s.counter;
    let t = s.advanced().0;
    if c.sec < 59 {
        assert(clock_seconds(c) + 1 < 65536 * 86400);
        vstd::arithmetic::div_mod::lemma_small_mod((clock_seconds(c) + 1) as nat, (65536
            * 86400) as nat);
    } else if c.min < 59 {
        assert(clock_seconds(c) + 1 < 65536 * 86400);
        vstd::arithmetic::div_mod::lemma_small_mod((clock_seconds(c) + 1) as nat, (65536
            * 86400) as nat);
    } else if c.hour < 23 {
        assert(clock_seconds(c) + 1 < 65536 * 86400);
        vstd::arithmetic::div_mod::lemma_small_mod((clock_seconds(c) + 1) as nat, (65536
            * 86400) as nat);
    } else if c.day < 0xFFFF {
        assert(clock_seconds(c) + 1 < 65536 * 86400);
        vstd::arithmetic::div_mod::lemma_small_mod((clock_seconds(c) + 1) as nat, (65536
            * 86400) as nat);
    } else {
        assert(clock_seconds(c) + 1 == 65536 * 86400);
        assert(t.day == 0);
    }
}

/// A load whose transfer has started (tick 0) and runs to the end copies the
/// load registers into the counter and clears the load bit of the control
/// register.
pub proof fn lemma_full_load_copies(s: RtcController)
    requires
        s.load_ticks_processed == 0,
    ensures
        s.loaded(LOAD_TOTAL_TICKS).counter == s.load,
        s.loaded(LOAD_TOTAL_TICKS).control & 0x40 == 0,
        s.loaded(LOAD_TOTAL_TICKS).load_ticks_processed == LOAD_TOTAL_TICKS,
        s.loaded(LOAD_TOTAL_TICKS).load == s.load,
{
    let c = s.counter.packed();
    let l = s.load.packed();
    let ctl = s.control;
    let wm = (RTC_DATETIME_MASK >> 0u64) & !(RTC_DATETIME_MASK >> 40u64);
    lemma_datetime_round_trip(s.counter, 0);
    assert(((c & !wm) | (l & wm)) == l & 0xFF_FFFF_FFFF && (ctl & !0x40u8) & 0x40 == 0)
        by (bit_vector)
        requires
            wm == (0xFF_FFFF_FFFFu64 >> 0u64) & !(0xFF_FFFF_FFFFu64 >> 40u64),
            c <= 0xFF_FFFF_FFFFu64,
    ;
    lemma_datetime_round_trip(s.load, l);
}

/// Transferring the load bit by bit in two steps gives the same state as
/// transferring up to the later tick at once: the per-tick advance composes.
pub proof fn lemma_load_steps_compose(s: RtcController, a: u8, b: u8)
    requires
        s.load_ticks_processed <= a <= b,
    ensures
        s.loaded(a).loaded(b) == s.loaded(b),
{
    let start = s.load_ticks_processed;
    if a > start && start < RTC_DATETIME_BITS && b > a && a < RTC_DATETIME_BITS {
        let x = s.loaded(a);
        let eff = if b >= RTC_DATETIME_BITS {
            RTC_DATETIME_BITS
        } else {
            b
        };
        let c = s.counter.packed();
        let l = s.load.packed();
        let (st, aa, e) = (start as u64, a as u64, eff as u64);
        let m1 = (RTC_DATETIME_MASK >> st) & !(RTC_DATETIME_MASK >> aa);
        let m2 = (RTC_DATETIME_MASK >> aa) & !(RTC_DATETIME_MASK >> e);
        let m = (RTC_DATETIME_MASK >> st) & !(RTC_DATETIME_MASK >> e);
        let xv = (c & !m1) | (l & m1);
        lemma_datetime_round_trip(x.counter, xv);
        let y = ((xv & RTC_DATETIME_MASK) & !m2) | (l & m2);
        let z = (c & !m) | (l & m);
        assert(y & 0xFF_FFFF_FFFF == z & 0xFF_FFFF_FFFF) by (bit_vector)
            requires
                st < aa,
                aa < e,
                e <= 40,
                m1 == (0xFF_FFFF_FFFFu64 >> st) & !(0xFF_FFFF_FFFFu64 >> aa),
                m2 == (0xFF_FFFF_FFFFu64 >> aa) & !(0xFF_FFFF_FFFFu64 >> e),
                m == (0xFF_FFFF_FFFFu64 >> st) & !(0xFF_FFFF_FFFFu64 >> e),
                xv == (c & !m1) | (l & m1),
                y == ((xv & 0xFF_FFFF_FFFFu64) & !m2) | (l & m2),
                z == (c & !m) | (l & m),
        ;
        lemma_datetime_round_trip(x.counter, y);
        lemma_datetime_round_trip(x.counter, z);
    }
}

} // verus!
