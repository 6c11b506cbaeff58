//! General purpose timers.
//!
//! Memory-mapped at 0xF20000 (port offset 0x120000 from 0xE00000). Three timers
//! share one register block:
//!   0x00-0x2F per-timer counter / reset / match0 / match1 (16 bytes per timer),
//!   0x30 control, 0x34 status (write-to-clear), 0x38 mask, 0x3C revision.
//!
//! Control bits: [3i] enable, [3i+1] 32 kHz clock, [3i+2] overflow/reload
//! enable, [9+i] count down. Status bits: [3i] match0, [3i+1] match1,
//! [3i+2] overflow/zero.
use vstd::prelude::*;
use crate::bits::{byte_at, lane, lane_of, get_byte, put_byte, with_byte};

verus! {

/// Revision register value.
pub const REVISION: u32 = 0x00010801;

/// Per-timer data registers.
#[derive(Debug, Clone, Copy)]
pub struct TimerRegs {
    pub counter: u32,
    pub reset: u32,
    pub match_val: [u32; 2],
}

impl TimerRegs {
    pub open spec fn zero() -> Self {
        TimerRegs { counter: 0, reset: 0, match_val: [0, 0] }
    }

    pub fn new() -> (r: Self)
        ensures
            r == Self::zero(),
    {
        TimerRegs { counter: 0, reset: 0, match_val: [0, 0] }
    }

    pub fn reset(&mut self)
        ensures
            *final(self) == Self::zero(),
    {
        self.counter = 0;
        self.reset = 0;
        self.match_val = [0, 0];
    }
}

/// `a` with element `i` (0, 1 or 2) replaced.
pub open spec fn upd3<T>(a: [T; 3], i: int, v: T) -> [T; 3] {
    if i == 0 {
        [v, a[1], a[2]]
    } else if i == 1 {
        [a[0], v, a[2]]
    } else {
        [a[0], a[1], v]
    }
}

/// CPU cycles per 32 kHz tick for a CPU speed setting.
pub open spec fn cycles_per_32k(speed: u8) -> u32 {
    if speed == 0 {
        183
    } else if speed == 1 {
        366
    } else if speed == 2 {
        732
    } else {
        1464
    }
}

/// Status bits for the matches crossed while counting up from `old` to `new`.
pub open spec fn match_bits_up(t: TimerRegs, i: int, old: u32, new: u32, overflow: bool) -> u32 {
    let c0 = if overflow {
        t.match_val[0] > old || t.match_val[0] <= new
    } else {
        t.match_val[0] > old && t.match_val[0] <= new
    };
    let c1 = if overflow {
        t.match_val[1] > old || t.match_val[1] <= new
    } else {
        t.match_val[1] > old && t.match_val[1] <= new
    };
    (if c0 {
        1u32 << ((3 * i) as u32)
    } else {
        0u32
    }) | (if c1 {
        1u32 << ((3 * i + 1) as u32)
    } else {
        0u32
    })
}

/// Status bits for the matches crossed while counting down from `old` to `new`.
pub open spec fn match_bits_down(t: TimerRegs, i: int, old: u32, new: u32) -> u32 {
    let c0 = t.match_val[0] >= new && t.match_val[0] < old;
    let c1 = t.match_val[1] >= new && t.match_val[1] < old;
    (if c0 {
        1u32 << ((3 * i) as u32)
    } else {
        0u32
    }) | (if c1 {
        1u32 << ((3 * i + 1) as u32)
    } else {
        0u32
    })
}

/// General purpose timer block (all three timers).
#[derive(Debug, Clone)]
pub struct GeneralTimers {
    pub timer: [TimerRegs; 3],
    /// Shared control register.
    pub control: u32,
    /// Shared status register (write-to-clear).
    pub status: u32,
    /// Interrupt mask register.
    pub mask: u32,
    /// Cycles accumulated per timer toward the next 32 kHz tick.
    pub accum_cycles: [u32; 3],
    /// Status captured for the interrupt delay pipeline.
    pub delay_status: u32,
    /// Timer interrupts waiting in the delay pipeline (bit i = timer i).
    pub delay_intrpt: u8,
    /// Set when the delay pipeline holds interrupts to deliver.
    pub needs_delay_event: bool,
}

impl GeneralTimers {
    pub open spec fn initial() -> Self {
        GeneralTimers {
            timer: [TimerRegs::zero(), TimerRegs::zero(), TimerRegs::zero()],
            control: 0,
            status: 0,
            mask: 0,
            accum_cycles: [0, 0, 0],
            delay_status: 0,
            delay_intrpt: 0,
            needs_delay_event: false,
        }
    }

    pub open spec fn enabled(self, i: int) -> bool {
        self.control & (1u32 << ((3 * i) as u32)) != 0
    }

    pub open spec fn slow_clock(self, i: int) -> bool {
        self.control & (1u32 << ((3 * i + 1) as u32)) != 0
    }

    pub open spec fn reloads(self, i: int) -> bool {
        self.control & (1u32 << ((3 * i + 2) as u32)) != 0
    }

    pub open spec fn counts_down(self, i: int) -> bool {
        self.control & (1u32 << ((9 + i) as u32)) != 0
    }

    /// Whether timer `i` has a status bit that its mask lets through.
    /// All three timers advanced by `cycles` CPU cycles, and the bitmask of
    /// the timers that then signal an interrupt (bit i for timer i), which is
    /// also queued in the delay pipeline.
    pub open spec fn ticked(self, cycles: u32, cpu_speed: u8) -> (Self, u8) {
        let (s0, f0) = self.stepped(0, cycles, cpu_speed);
        let (s1, f1) = s0.stepped(1, cycles, cpu_speed);
        let (s2, f2) = s1.stepped(2, cycles, cpu_speed);
        let fired = (if f0 {
            1u8
        } else {
            0u8
        }) | (if f1 {
            2u8
        } else {
            0u8
        }) | (if f2 {
            4u8
        } else {
            0u8
        });
        if fired != 0 {
            (
                GeneralTimers {
                    delay_status: s2.status,
                    delay_intrpt: s2.delay_intrpt | fired,
                    needs_delay_event: true,
                    ..s2
                },
                fired,
            )
        } else {
            (s2, fired)
        }
    }

    pub open spec fn timer_interrupt(self, i: int) -> bool {
        ((self.status >> ((3 * i) as u32)) & 7) & ((self.mask >> ((3 * i) as u32)) & 7) != 0
    }

    /// Timer `i` advanced by `ticks` (nonzero) timer ticks.
    pub open spec fn counted(self, i: int, ticks: u32) -> Self {
        let t = self.timer[i];
        let old = t.counter;
        if self.counts_down(i) {
            if old >= ticks {
                let new = (old - ticks) as u32;
                GeneralTimers {
                    timer: upd3(self.timer, i, TimerRegs { counter: new, ..t }),
                    status: self.status | match_bits_down(t, i, old, new),
                    ..self
                }
            } else {
                let remaining = (ticks - old) as u32;
                let new = if self.reloads(i) {
                    vstd::wrapping::u32_specs::wrapping_sub(t.reset, remaining)
                } else {
                    vstd::wrapping::u32_specs::wrapping_sub(
                        0xFFFFFFFFu32,
                        (remaining - 1) as u32,
                    )
                };
                GeneralTimers {
                    timer: upd3(self.timer, i, TimerRegs { counter: new, ..t }),
                    status: self.status | match_bits_down(t, i, old, 0) | (1u32 << ((3 * i
                        + 2) as u32)),
                    ..self
                }
            }
        } else {
            let overflow = old + ticks > u32::MAX;
            let sum = vstd::wrapping::u32_specs::wrapping_add(old, ticks);
            let new = if overflow && self.reloads(i) {
                vstd::wrapping::u32_specs::wrapping_add(t.reset, sum)
            } else {
                sum
            };
            GeneralTimers {
                timer: upd3(self.timer, i, TimerRegs { counter: new, ..t }),
                status: if overflow {
                    self.status | match_bits_up(t, i, old, sum, overflow) | (1u32 << ((3 * i
                        + 2) as u32))
                } else {
                    self.status | match_bits_up(t, i, old, sum, overflow)
                },
                ..self
            }
        }
    }

    /// Timer `i` after `cycles` CPU cycles at `speed`, and whether it then
    /// signals an interrupt.
    pub open spec fn stepped(self, i: int, cycles: u32, speed: u8) -> (Self, bool) {
        if !self.enabled(i) {
            (self, false)
        } else {
            let acc = (self.accum_cycles[i] + cycles) as u32;
            let cpt = cycles_per_32k(speed);
            if self.slow_clock(i) && acc < cpt {
                (GeneralTimers { accum_cycles: upd3(self.accum_cycles, i, acc), ..self }, false)
            } else {
                let ticks = if self.slow_clock(i) {
                    (acc / cpt) as u32
                } else {
                    acc
                };
                let rest = if self.slow_clock(i) {
                    (acc % cpt) as u32
                } else {
                    0u32
                };
                let s = GeneralTimers { accum_cycles: upd3(self.accum_cycles, i, rest), ..self };
                if ticks == 0 {
                    (s, false)
                } else {
                    let c = s.counted(i, ticks);
                    (c, c.timer_interrupt(i))
                }
            }
        }
    }

    /// The 32-bit register that a byte address falls in.
    pub open spec fn register(self, addr: u32) -> u32 {
        let off = addr & 0x3F;
        if off < 0x30 {
            let t = self.timer[(off / 0x10) as int];
            let reg = (off % 0x10) & 0x0C;
            if reg == 0 {
                t.counter
            } else if reg == 4 {
                t.reset
            } else if reg == 8 {
                t.match_val[0]
            } else {
                t.match_val[1]
            }
        } else if off < 0x34 {
            self.control
        } else if off < 0x38 {
            self.status
        } else if off < 0x3C {
            self.mask
        } else {
            REVISION
        }
    }

    /// The timer block after a byte write.
    pub open spec fn written(self, addr: u32, value: u8) -> Self {
        let off = addr & 0x3F;
        let sh = lane(addr);
        if off < 0x30 {
            let i = (off / 0x10) as int;
            let t = self.timer[i];
            let reg = (off % 0x10) & 0x0C;
            let nt = if reg == 0 {
                TimerRegs { counter: with_byte(t.counter, sh, value), ..t }
            } else if reg == 4 {
                TimerRegs { reset: with_byte(t.reset, sh, value), ..t }
            } else if reg == 8 {
                TimerRegs { match_val: [with_byte(t.match_val[0], sh, value), t.match_val[1]], ..t }
            } else {
                TimerRegs { match_val: [t.match_val[0], with_byte(t.match_val[1], sh, value)], ..t }
            };
            GeneralTimers { timer: upd3(self.timer, i, nt), ..self }
        } else if off < 0x34 {
            GeneralTimers { control: with_byte(self.control, sh, value), ..self }
        } else if off < 0x38 {
            GeneralTimers { status: self.status & !((value as u32) << sh), ..self }
        } else if off < 0x3C {
            GeneralTimers { mask: with_byte(self.mask, sh, value), ..self }
        } else {
            self
        }
    }

    pub fn new() -> (r: Self)
        ensures
            r == Self::initial(),
    {
        GeneralTimers {
            timer: [TimerRegs::new(), TimerRegs::new(), TimerRegs::new()],
            control: 0,
            status: 0,
            mask: 0,
            accum_cycles: [0, 0, 0],
            delay_status: 0,
            delay_intrpt: 0,
            needs_delay_event: false,
        }
    }

    pub fn reset(&mut self)
        ensures
            *final(self) == Self::initial(),
    {
        *self = Self::new();
    }

    /// Whether timer `index` is enabled (control bit 3*index).
    pub fn is_enabled(&self, index: usize) -> (r: bool)
        requires
            index < 3,
        ensures
            r == self.enabled(index as int),
    {
        self.control & (1u32 << ((index * 3) as u32)) != 0
    }

    /// Whether timer `index` runs from the 32 kHz clock (control bit 3*index+1).
    pub fn uses_32k_clock(&self, index: usize) -> (r: bool)
        requires
            index < 3,
        ensures
            r == self.slow_clock(index as int),
    {
        self.control & (1u32 << ((index * 3 + 1) as u32)) != 0
    }

    /// Whether timer `index` counts down (control bit 9+index).
    pub fn is_inverted(&self, index: usize) -> (r: bool)
        requires
            index < 3,
        ensures
            r == self.counts_down(index as int),
    {
        self.control & (1u32 << ((9 + index) as u32)) != 0
    }

    /// Read a byte of the timer register space.
    pub fn read(&self, addr: u32) -> (r: u8)
        ensures
            r == byte_at(self.register(addr), lane(addr)),
    {
        let offset = addr & 0x3F;
        let bit_offset = lane_of(addr);
        let value: u32 = if offset < 0x30 {
            proof {
                crate::bits::lemma_mask_facts();
            }
            let t = self.timer[(offset / 0x10) as usize];
            let reg = (offset % 0x10) & 0x0C;
            if reg == 0 {
                t.counter
            } else if reg == 4 {
                t.reset
            } else if reg == 8 {
                t.match_val[0]
            } else {
                t.match_val[1]
            }
        } else if offset < 0x34 {
            self.control
        } else if offset < 0x38 {
            self.status
        } else if offset < 0x3C {
            self.mask
        } else {
            REVISION
        };
        get_byte(value, bit_offset)
    }

    /// Write a byte of the timer register space.
    pub fn write(&mut self, addr: u32, value: u8)
        ensures
            *final(self) == old(self).written(addr, value),
    {
        let offset = addr & 0x3F;
        let bit_offset = lane_of(addr);
        if offset < 0x30 {
            let i = (offset / 0x10) as usize;
            let mut t = self.timer[i];
            let reg = (offset % 0x10) & 0x0C;
            if reg == 0 {
                t.counter = put_byte(t.counter, bit_offset, value);
            } else if reg == 4 {
                t.reset = put_byte(t.reset, bit_offset, value);
            } else if reg == 8 {
                let v = put_byte(t.match_val[0], bit_offset, value);
                t.match_val = [v, t.match_val[1]];
            } else {
                let v = put_byte(t.match_val[1], bit_offset, value);
                t.match_val = [t.match_val[0], v];
            }
            self.timer[i] = t;
            assert(self.timer =~= old(self).written(addr, value).timer);
        } else if offset < 0x34 {
            self.control = put_byte(self.control, bit_offset, value);
        } else if offset < 0x38 {
            self.status = self.status & !((value as u32) << bit_offset);
        } else if offset < 0x3C {
            self.mask = put_byte(self.mask, bit_offset, value);
        }
    }

    /// Status bits of timer `i`'s matches crossed counting up (sets them).
    fn check_matches_up(&mut self, i: usize, prev: u32, next: u32, overflow: bool)
        requires
            i < 3,
        ensures
            *final(self) == (GeneralTimers {
                status: old(self).status | match_bits_up(old(self).timer[i as int], i as int, prev, next, overflow),
                ..*old(self)
            }),
    {
        let t = self.timer[i];
        let b0 = 1u32 << ((i * 3) as u32);
        let b1 = 1u32 << ((i * 3 + 1) as u32);
        let c0 = if overflow {
            t.match_val[0] > prev || t.match_val[0] <= next
        } else {
            t.match_val[0] > prev && t.match_val[0] <= next
        };
        let c1 = if overflow {
            t.match_val[1] > prev || t.match_val[1] <= next
        } else {
            t.match_val[1] > prev && t.match_val[1] <= next
        };
        let bits = (if c0 { b0 } else { 0u32 }) | (if c1 { b1 } else { 0u32 });
        self.status = self.status | bits;
    }

    /// Status bits of timer `i`'s matches crossed counting down (sets them).
    fn check_matches_down(&mut self, i: usize, prev: u32, next: u32)
        requires
            i < 3,
        ensures
            *final(self) == (GeneralTimers {
                status: old(self).status | match_bits_down(old(self).timer[i as int], i as int, prev, next),
                ..*old(self)
            }),
    {
        let t = self.timer[i];
        let b0 = 1u32 << ((i * 3) as u32);
        let b1 = 1u32 << ((i * 3 + 1) as u32);
        let c0 = t.match_val[0] >= next && t.match_val[0] < prev;
        let c1 = t.match_val[1] >= next && t.match_val[1] < prev;
        let bits = (if c0 { b0 } else { 0u32 }) | (if c1 { b1 } else { 0u32 });
        self.status = self.status | bits;
    }

    /// Advance timer `i` by `ticks` (nonzero) timer ticks.
    fn count(&mut self, i: usize, ticks: u32)
        requires
            i < 3,
            ticks > 0,
        ensures
            *final(self) == old(self).counted(i as int, ticks),
    {
        let old_counter = self.timer[i].counter;
        let reload = self.control & (1u32 << ((i * 3 + 2) as u32)) != 0;
        let ovf_bit = 1u32 << ((i * 3 + 2) as u32);
        if self.is_inverted(i) {
            if old_counter >= ticks {
                let new = old_counter - ticks;
                self.check_matches_down(i, old_counter, new);
                let mut t = self.timer[i];
                t.counter = new;
                self.timer[i] = t;
            } else {
                let remaining = ticks - old_counter;
                self.check_matches_down(i, old_counter, 0);
                let mut t = self.timer[i];
                if reload {
                    t.counter = t.reset.wrapping_sub(remaining);
                } else {
                    t.counter = 0xFFFFFFFFu32.wrapping_sub(remaining - 1);
                }
                self.timer[i] = t;
                self.status = self.status | ovf_bit;
            }
        } else {
            let overflow = old_counter as u64 + ticks as u64 > 0xFFFF_FFFFu64;
            let sum = old_counter.wrapping_add(ticks);
            self.check_matches_up(i, old_counter, sum, overflow);
            let mut t = self.timer[i];
            t.counter = sum;
            if overflow {
                if reload {
                    t.counter = t.reset.wrapping_add(sum);
                }
                self.status = self.status | ovf_bit;
            }
            self.timer[i] = t;
        }
        assert(self.timer =~= old(self).counted(i as int, ticks).timer);
    }

    /// Advance timer `i` by `cycles` CPU cycles; returns whether it then
    /// signals an interrupt.
    fn tick_one(&mut self, i: usize, cycles: u32, cpu_speed: u8) -> (r: bool)
        requires
            i < 3,
            old(self).enabled(i as int) ==> old(self).accum_cycles[i as int] + cycles <= u32::MAX,
        ensures
            (*final(self), r) == old(self).stepped(i as int, cycles, cpu_speed),
            final(self).control == old(self).control,
            forall|j: int|
                0 <= j < 3 && j != i ==> #[trigger] final(self).accum_cycles[j]
                    == old(self).accum_cycles[j],
    {
        if !self.is_enabled(i) {
            return false;
        }
        let acc = self.accum_cycles[i] + cycles;
        let ticks: u32;
        if self.uses_32k_clock(i) {
            let cycles_per_tick: u32 = match cpu_speed {
                0 => 183,
                1 => 366,
                2 => 732,
                _ => 1464,
            };
            if acc >= cycles_per_tick {
                ticks = acc / cycles_per_tick;
                self.accum_cycles[i] = acc % cycles_per_tick;
            } else {
                self.accum_cycles[i] = acc;
                assert(self.accum_cycles =~= old(self).stepped(i as int, cycles, cpu_speed).0.accum_cycles);
                return false;
            }
        } else {
            ticks = acc;
            self.accum_cycles[i] = 0;
        }
        assert(self.accum_cycles =~= upd3(old(self).accum_cycles, i as int,
            if self.slow_clock(i as int) { acc % cycles_per_32k(cpu_speed) } else { 0u32 }));
        if ticks == 0 {
            return false;
        }
        self.count(i, ticks);
        let timer_status = (self.status >> ((i * 3) as u32)) & 0x7;
        let timer_mask = (self.mask >> ((i * 3) as u32)) & 0x7;
        timer_status & timer_mask != 0
    }

    /// Advance all enabled timers by `cycles` CPU cycles at CPU speed setting
    /// `cpu_speed` (0-3 for 6/12/24/48 MHz). Returns a bitmask of the timers
    /// (bit i = timer i) that then signal an interrupt; those interrupts are
    /// also queued in the delay pipeline.
    pub fn tick(&mut self, cycles: u32, cpu_speed: u8) -> (r: u8)
        requires
            forall|i: int|
                0 <= i < 3 && #[trigger] old(self).enabled(i) ==> old(self).accum_cycles[i] + cycles
                    <= u32::MAX,
        ensures
            (*final(self), r) == old(self).ticked(cycles, cpu_speed),
    {
        assert(old(self).enabled(1) ==> old(self).accum_cycles[1] + cycles <= u32::MAX);
        assert(old(self).enabled(2) ==> old(self).accum_cycles[2] + cycles <= u32::MAX);
        let f0 = self.tick_one(0, cycles, cpu_speed);
        assert(self.enabled(1) == old(self).enabled(1) && self.enabled(2) == old(self).enabled(2));
        let f1 = self.tick_one(1, cycles, cpu_speed);
        assert(self.enabled(2) == old(self).enabled(2));
        let f2 = self.tick_one(2, cycles, cpu_speed);
        let fired: u8 = (if f0 { 1u8 } else { 0u8 }) | (if f1 { 2u8 } else { 0u8 }) | (if f2 {
            4u8
        } else {
            0u8
        });
        if fired != 0 {
            self.delay_status = self.status;
            self.delay_intrpt = self.delay_intrpt | fired;
            self.needs_delay_event = true;
        }
        fired
    }

    /// Per-timer interrupt lines: bit i is set when timer i has a status bit
    /// that its mask lets through.
    pub fn interrupt_state(&self) -> (r: u8)
        ensures
            r & 1 != 0 <==> self.timer_interrupt(0),
            r & 2 != 0 <==> self.timer_interrupt(1),
            r & 4 != 0 <==> self.timer_interrupt(2),
            r <= 7,
    {
        let t0 = (self.status & 7) & (self.mask & 7) != 0;
        let t1 = ((self.status >> 3) & 7) & ((self.mask >> 3) & 7) != 0;
        let t2 = ((self.status >> 6) & 7) & ((self.mask >> 6) & 7) != 0;
        proof {
            let s = self.status;
            let m = self.mask;
            crate::bits::lemma_mask_facts();
            assert(s >> 0u32 == s && m >> 0u32 == m);
        }
        let a: u8 = if t0 { 1 } else { 0 };
        let b: u8 = if t1 { 2 } else { 0 };
        let c: u8 = if t2 { 4 } else { 0 };
        assert(((a | b | c) & 1 != 0) == (a == 1) && ((a | b | c) & 2 != 0) == (b == 2) && ((a | b
            | c) & 4 != 0) == (c == 4) && (a | b | c) <= 7) by (bit_vector)
            requires
                a == 0 || a == 1,
                b == 0 || b == 2,
                c == 0 || c == 4,
        ;
        a | b | c
    }

    /// Whether the delay pipeline holds interrupts to deliver.
    pub fn needs_delay_schedule(&self) -> (r: bool)
        ensures
            r == self.needs_delay_event,
    {
        self.needs_delay_event
    }

    /// Deliver the delay pipeline: returns the captured status, the timer
    /// interrupts to raise (bit i = timer i), and whether more are queued
    /// (never, as one delivery empties the pipeline).
    pub fn process_delay(&mut self) -> (r: (u32, u8, bool))
        ensures
            r == (old(self).delay_status, old(self).delay_intrpt, false),
            *final(self) == (GeneralTimers {
                delay_status: 0,
                delay_intrpt: 0,
                needs_delay_event: false,
                ..*old(self)
            }),
    {
        let r = (self.delay_status, self.delay_intrpt, false);
        self.delay_status = 0;
        self.delay_intrpt = 0;
        self.needs_delay_event = false;
        r
    }

    pub fn counter(&self, index: usize) -> (r: u32)
        requires
            index < 3,
        ensures
            r == self.timer[index as int].counter,
    {
        self.timer[index].counter
    }

    pub fn reset_value(&self, index: usize) -> (r: u32)
        requires
            index < 3,
        ensures
            r == self.timer[index as int].reset,
    {
        self.timer[index].reset
    }

    pub fn match_val(&self, index: usize, m: usize) -> (r: u32)
        requires
            index < 3,
            m < 2,
        ensures
            r == self.timer[index as int].match_val[m as int],
    {
        self.timer[index].match_val[m]
    }

    pub fn control_word(&self) -> (r: u32)
        ensures
            r == self.control,
    {
        self.control
    }

    pub fn status_word(&self) -> (r: u32)
        ensures
            r == self.status,
    {
        self.status
    }

    pub fn mask_word(&self) -> (r: u32)
        ensures
            r == self.mask,
    {
        self.mask
    }

    pub fn set_counter(&mut self, index: usize, value: u32)
        requires
            index < 3,
        ensures
            *final(self) == (GeneralTimers {
                timer: upd3(old(self).timer, index as int, TimerRegs { counter: value, ..old(self).timer[index as int] }),
                ..*old(self)
            }),
    {
        let mut t = self.timer[index];
        t.counter = value;
        self.timer[index] = t;
        assert(self.timer =~= upd3(old(self).timer, index as int, t));
    }

    pub fn set_reset_value(&mut self, index: usize, value: u32)
        requires
            index < 3,
        ensures
            *final(self) == (GeneralTimers {
                timer: upd3(old(self).timer, index as int, TimerRegs { reset: value, ..old(self).timer[index as int] }),
                ..*old(self)
            }),
    {
        let mut t = self.timer[index];
        t.reset = value;
        self.timer[index] = t;
        assert(self.timer =~= upd3(old(self).timer, index as int, t));
    }

    pub fn set_match_val(&mut self, index: usize, m: usize, value: u32)
        requires
            index < 3,
            m < 2,
        ensures
            *final(self) == (GeneralTimers {
                timer: upd3(
                    old(self).timer,
                    index as int,
                    TimerRegs {
                        match_val: if m == 0 {
                            [value, old(self).timer[index as int].match_val[1]]
                        } else {
                            [old(self).timer[index as int].match_val[0], value]
                        },
                        ..old(self).timer[index as int]
                    },
                ),
                ..*old(self)
            }),
    {
        let mut t = self.timer[index];
        t.match_val[m] = value;
        self.timer[index] = t;
        assert(t.match_val =~= (if m == 0 {
            [value, old(self).timer[index as int].match_val[1]]
        } else {
            [old(self).timer[index as int].match_val[0], value]
        }));
        assert(self.timer =~= upd3(old(self).timer, index as int, t));
    }

    pub fn set_control_word(&mut self, value: u32)
        ensures
            *final(self) == (GeneralTimers { control: value, ..*old(self) }),
    {
        self.control = value;
    }

    pub fn set_status_word(&mut self, value: u32)
        ensures
            *final(self) == (GeneralTimers { status: value, ..*old(self) }),
    {
        self.status = value;
    }

    pub fn set_mask_word(&mut self, value: u32)
        ensures
            *final(self) == (GeneralTimers { mask: value, ..*old(self) }),
    {
        self.mask = value;
    }

    pub fn accum_cycles(&self, index: usize) -> (r: u32)
        requires
            index < 3,
        ensures
            r == self.accum_cycles[index as int],
    {
        self.accum_cycles[index]
    }

    pub fn set_accum_cycles(&mut self, index: usize, value: u32)
        requires
            index < 3,
        ensures
            *final(self) == (GeneralTimers {
                accum_cycles: upd3(old(self).accum_cycles, index as int, value),
                ..*old(self)
            }),
    {
        self.accum_cycles[index] = value;
        assert(self.accum_cycles =~= upd3(old(self).accum_cycles, index as int, value));
    }
}

impl Default for GeneralTimers {
    fn default() -> (r: Self)
        ensures
            r == Self::initial(),
    {
        Self::new()
    }
}


/// A disabled timer does not change, and signals nothing, however many
/// cycles pass.
pub proof fn lemma_disabled_timer_still(g: GeneralTimers, i: int, cycles: u32, speed: u8)
    requires
        !g.enabled(i),
    ensures
        g.stepped(i, cycles, speed) == (g, false),
{
}

/// An enabled timer on the CPU clock, counting up without passing the top,
/// advances by exactly the elapsed (and previously accumulated) cycles.
pub proof fn lemma_count_up_exact(g: GeneralTimers, i: int, cycles: u32, speed: u8)
    requires
        0 <= i < 3,
        g.enabled(i),
        !g.slow_clock(i),
        !g.counts_down(i),
        g.accum_cycles[i] + cycles <= u32::MAX,
        g.timer[i].counter + g.accum_cycles[i] + cycles <= u32::MAX,
    ensures
        g.stepped(i, cycles, speed).0.timer[i].counter == g.timer[i].counter + g.accum_cycles[i]
            + cycles,
        g.stepped(i, cycles, speed).0.accum_cycles[i] == 0,
{
}

/// An enabled timer on the CPU clock, counting down past zero with reload
/// enabled, wraps from its reset value: it ends at reset - (ticks - counter).
pub proof fn lemma_count_down_reload(g: GeneralTimers, i: int, cycles: u32, speed: u8)
    requires
        0 <= i < 3,
        g.enabled(i),
        !g.slow_clock(i),
        g.counts_down(i),
        g.reloads(i),
        g.accum_cycles[i] == 0,
        g.timer[i].counter < cycles,
        cycles - g.timer[i].counter <= g.timer[i].reset,
    ensures
        g.stepped(i, cycles, speed).0.timer[i].counter == g.timer[i].reset - (cycles
            - g.timer[i].counter),
        g.stepped(i, cycles, speed).0.status & (1u32 << ((3 * i + 2) as u32)) != 0,
{
    let s = g.status;
    let m = match_bits_down(g.timer[i], i, g.timer[i].counter, 0);
    let k = (3 * i + 2) as u32;
    assert((s | m | (1u32 << k)) & (1u32 << k) != 0) by (bit_vector)
        requires
            k < 32,
    ;
}

/// Bit facts of a tick: the fired mask has bit 0, 1 or 2 set exactly for
/// the timers that fired; or-ing bits into a word keeps all of its bits; and
/// a status word that keeps all bits of another still has every interrupt
/// that the other one signals.
proof fn lemma_tick_bits(a: bool, b: bool, c: bool, s: u32, x: u32, y: u32, s2: u32, m: u32, k: u32)
    by (bit_vector)
    ensures
        ({
            let r = (if a { 1u8 } else { 0u8 }) | (if b { 2u8 } else { 0u8 }) | (if c {
                4u8
            } else {
                0u8
            });
            (r & 1 != 0) == a && (r & 2 != 0) == b && (r & 4 != 0) == c
        }),
        s & s == s,
        (s | x) & s == s,
        ((s | x) | y) & s == s,
        k < 32 && s2 & s == s && ((s >> k) & 7) & ((m >> k) & 7) != 0 ==> ((s2 >> k) & 7) & ((m
            >> k) & 7) != 0,
{
}

/// Stepping one timer leaves the control and mask words and the other
/// timers' registers and accumulators alone, and keeps every status bit, so
/// every interrupt that any timer signalled before is still signalled.
proof fn lemma_step_frame(g: GeneralTimers, j: int, cycles: u32, speed: u8)
    requires
        0 <= j < 3,
    ensures
        ({
            let t = g.stepped(j, cycles, speed).0;
            &&& t.control == g.control
            &&& t.mask == g.mask
            &&& t.status & g.status == g.status
            &&& forall|k: int|
                0 <= k < 3 && k != j ==> #[trigger] t.timer[k] == g.timer[k] && t.accum_cycles[k]
                    == g.accum_cycles[k]
        }),
{
    let t = g.stepped(j, cycles, speed).0;
    lemma_tick_bits(false, false, false, g.status, g.status, 0, g.status, 0, 0);
    if g.enabled(j) {
        let acc = (g.accum_cycles[j] + cycles) as u32;
        let cpt = cycles_per_32k(speed);
        if !(g.slow_clock(j) && acc < cpt) {
            let ticks = if g.slow_clock(j) { (acc / cpt) as u32 } else { acc };
            let rest = if g.slow_clock(j) { (acc % cpt) as u32 } else { 0u32 };
            let sg = GeneralTimers { accum_cycles: upd3(g.accum_cycles, j, rest), ..g };
            if ticks != 0 {
                let tr = sg.timer[j];
                let old = tr.counter;
                let bit = 1u32 << ((3 * j + 2) as u32);
                if sg.counts_down(j) {
                    if old >= ticks {
                        let new = (old - ticks) as u32;
                        lemma_tick_bits(false, false, false, g.status, match_bits_down(tr, j, old, new), 0, 0, 0, 0);
                    } else {
                        lemma_tick_bits(false, false, false, g.status, match_bits_down(tr, j, old, 0), bit, 0, 0, 0);
                    }
                } else {
                    let overflow = old + ticks > u32::MAX;
                    let sum = vstd::wrapping::u32_specs::wrapping_add(old, ticks);
                    lemma_tick_bits(false, false, false, g.status, match_bits_up(tr, j, old, sum, overflow), bit, 0, 0, 0);
                }
            }
        }
    }
}

/// A tick, timer by timer: a disabled timer keeps its registers and
/// accumulator and is not in the returned mask; a timer in the mask then
/// signals an interrupt (a status bit its mask lets through); and an enabled
/// timer on the CPU clock, counting up without passing the top, advances by
/// exactly the elapsed and accumulated cycles and clears its accumulator.
pub proof fn lemma_tick_per_timer(g: GeneralTimers, cycles: u32, speed: u8, i: int)
    requires
        0 <= i < 3,
    ensures
        ({
            let (t, r) = g.ticked(cycles, speed);
            let bit: u8 = if i == 0 { 1 } else if i == 1 { 2 } else { 4 };
            &&& !g.enabled(i) ==> t.timer[i] == g.timer[i] && t.accum_cycles[i]
                == g.accum_cycles[i] && r & bit == 0
            &&& r & bit != 0 ==> t.timer_interrupt(i)
            &&& g.enabled(i) && !g.slow_clock(i) && !g.counts_down(i) && g.accum_cycles[i] + cycles
                <= u32::MAX && g.timer[i].counter + g.accum_cycles[i] + cycles <= u32::MAX
                ==> t.timer[i].counter == g.timer[i].counter + g.accum_cycles[i] + cycles
                && t.accum_cycles[i] == 0
        }),
{
    let (s0, f0) = g.stepped(0, cycles, speed);
    let (s1, f1) = s0.stepped(1, cycles, speed);
    let (s2, f2) = s1.stepped(2, cycles, speed);
    lemma_step_frame(g, 0, cycles, speed);
    lemma_step_frame(s0, 1, cycles, speed);
    lemma_step_frame(s1, 2, cycles, speed);
    let (t, r) = g.ticked(cycles, speed);
    assert(t.timer == s2.timer && t.accum_cycles == s2.accum_cycles && t.status == s2.status
        && t.mask == s2.mask);
    lemma_tick_bits(f0, f1, f2, 0, 0, 0, 0, 0, 0);
    assert(s2.status & s1.status == s1.status && s1.status & s0.status == s0.status);
    let k = (3 * i) as u32;
    if i == 0 {
        if f0 {
            lemma_tick_bits(false, false, false, s0.status, 0, 0, s1.status, s0.mask, k);
            lemma_tick_bits(false, false, false, s1.status, 0, 0, s2.status, s1.mask, k);
        }
        if g.enabled(0) && !g.slow_clock(0) && !g.counts_down(0) && g.accum_cycles[0] + cycles
            <= u32::MAX && g.timer[0].counter + g.accum_cycles[0] + cycles <= u32::MAX {
            lemma_count_up_exact(g, 0, cycles, speed);
        }
    } else if i == 1 {
        assert(s0.enabled(1) == g.enabled(1) && s0.slow_clock(1) == g.slow_clock(1)
            && s0.counts_down(1) == g.counts_down(1));
        if f1 {
            lemma_tick_bits(false, false, false, s1.status, 0, 0, s2.status, s1.mask, k);
        }
        if g.enabled(1) && !g.slow_clock(1) && !g.counts_down(1) && g.accum_cycles[1] + cycles
            <= u32::MAX && g.timer[1].counter + g.accum_cycles[1] + cycles <= u32::MAX {
            lemma_count_up_exact(s0, 1, cycles, speed);
        }
    } else {
        assert(s1.enabled(2) == g.enabled(2) && s1.slow_clock(2) == g.slow_clock(2)
            && s1.counts_down(2) == g.counts_down(2));
        if g.enabled(2) && !g.slow_clock(2) && !g.counts_down(2) && g.accum_cycles[2] + cycles
            <= u32::MAX && g.timer[2].counter + g.accum_cycles[2] + cycles <= u32::MAX {
            lemma_count_up_exact(s1, 2, cycles, speed);
        }
    }
}

/// The CPU clock rate in Hz for a speed setting: 6, 12, 24 or 48 MHz for
/// settings 0-3 (above 3 the rate stays at 48 MHz).
pub open spec fn cpu_rate_hz(speed: u8) -> int {
    if speed == 0 {
        6_000_000
    } else if speed == 1 {
        12_000_000
    } else if speed == 2 {
        24_000_000
    } else {
        48_000_000
    }
}

/// The 32 kHz divider is the CPU rate divided by 32768 (rounded down): 183,
/// 366, 732 or 1464 CPU cycles per 32 kHz tick at 6, 12, 24 or 48 MHz.
pub proof fn lemma_divider_matches_rate(speed: u8)
    ensures
        cycles_per_32k(speed) as int == cpu_rate_hz(speed) / 32768,
{
}

/// A timer enabled on the 32 kHz clock, counting up without passing the top,
/// advances by the whole 32 kHz ticks in its accumulated and elapsed CPU
/// cycles, a tick being the CPU rate / 32768 cycles; the remainder stays
/// accumulated.
pub proof fn lemma_slow_clock_ticks(g: GeneralTimers, i: int, cycles: u32, speed: u8)
    requires
        0 <= i < 3,
        g.enabled(i),
        g.slow_clock(i),
        !g.counts_down(i),
        g.accum_cycles[i] + cycles <= u32::MAX,
        g.timer[i].counter + (g.accum_cycles[i] + cycles) / (cpu_rate_hz(speed) / 32768)
            <= u32::MAX,
    ensures
        ({
            let t = g.stepped(i, cycles, speed).0;
            let per = cpu_rate_hz(speed) / 32768;
            &&& t.timer[i].counter == g.timer[i].counter + (g.accum_cycles[i] + cycles) / per
            &&& t.accum_cycles[i] == (g.accum_cycles[i] + cycles) % per
        }),
{
    lemma_divider_matches_rate(speed);
    let acc = g.accum_cycles[i] + cycles;
    let per = cycles_per_32k(speed) as int;
    if acc < per {
        assert(acc / per == 0 && acc % per == acc) by (nonlinear_arith)
            requires
                0 <= acc < per,
        ;
    }
}

/// A byte written to a counter, reset, match, control or mask register reads
/// back unchanged; a write to the status register clears the written bits.
pub proof fn lemma_write_read(g: GeneralTimers, addr: u32, v: u8)
    ensures
        (addr & 0x3F) < 0x34 || (0x38 <= (addr & 0x3F) && (addr & 0x3F) < 0x3C) ==> byte_at(
            g.written(addr, v).register(addr),
            lane(addr),
        ) == v,
        0x34 <= (addr & 0x3F) < 0x38 ==> g.written(addr, v).status == g.status & !((v as u32)
            << lane(addr)),
{
    let sh = lane(addr);
    crate::bits::lemma_mask_facts();
    assert(sh == 0 || sh == 8 || sh == 16 || sh == 24);
    let off = addr & 0x3F;
    if off < 0x30 {
        let i = (off / 0x10) as int;
        let t = g.timer[i];
        crate::bits::lemma_with_byte_same(t.counter, sh, v);
        crate::bits::lemma_with_byte_same(t.reset, sh, v);
        crate::bits::lemma_with_byte_same(t.match_val[0], sh, v);
        crate::bits::lemma_with_byte_same(t.match_val[1], sh, v);
    } else {
        crate::bits::lemma_with_byte_same(g.control, sh, v);
        crate::bits::lemma_with_byte_same(g.mask, sh, v);
    }
}

} // verus!
