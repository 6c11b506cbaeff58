//! Interrupt controller.
//!
//! Memory-mapped at 0xF00000 (port offset 0x100000 from 0xE00000). Two banks
//! share the raw source state; each bank has its own status, enable, latch and
//! inversion masks. Bit 15 (PWR) is raised on power-up and reset.
use vstd::prelude::*;
use crate::bits::{byte_at, lane, lane_of, lemma_bit_small};

pub mod sources;

verus! {

/// One bank of interrupt state.
#[derive(Debug, Clone, Copy)]
pub struct InterruptBank {
    pub status: u32,
    pub enabled: u32,
    pub latched: u32,
    pub inverted: u32,
}

impl InterruptBank {
    pub open spec fn zero() -> Self {
        InterruptBank { status: 0, enabled: 0, latched: 0, inverted: 0 }
    }

    /// The bank after a source changes level: a source that is active (after
    /// inversion) sets its status bit; an inactive one clears it unless latched.
    pub open spec fn after_source(self, mask: u32, set: bool) -> Self {
        let active = set != ((self.inverted & mask) != 0);
        InterruptBank {
            status: if active {
                self.status | mask
            } else {
                self.status & (!mask | self.latched)
            },
            enabled: self.enabled,
            latched: self.latched,
            inverted: self.inverted,
        }
    }

    pub open spec fn pending(self) -> bool {
        (self.status & self.enabled) != 0
    }
}

/// Interrupt controller for the TI-84 Plus CE.
#[derive(Debug, Clone)]
pub struct InterruptController {
    pub banks: [InterruptBank; 2],
    pub raw: u32,
}

/// Which bank a register address selects (bit 5).
pub open spec fn bank_of(addr: u32) -> int {
    ((addr >> 5u32) & 1) as int
}

impl InterruptController {
    /// The controller with every register cleared.
    pub open spec fn cleared() -> Self {
        InterruptController { banks: [InterruptBank::zero(), InterruptBank::zero()], raw: 0 }
    }

    /// State after a source goes active (`set`) or inactive.
    pub open spec fn with_source(self, mask: u32, set: bool) -> Self {
        InterruptController {
            banks: [self.banks[0].after_source(mask, set), self.banks[1].after_source(mask, set)],
            raw: if set {
                self.raw | mask
            } else {
                self.raw & !mask
            },
        }
    }

    /// The power-up state: everything cleared, then PWR raised.
    pub open spec fn power_on() -> Self {
        Self::cleared().with_source(sources::PWR, true)
    }

    /// Some enabled interrupt is pending in either bank.
    pub open spec fn pending(self) -> bool {
        self.banks[0].pending() || self.banks[1].pending()
    }

    /// State after acknowledging the bits of `mask` in both banks.
    pub open spec fn acknowledged(self, mask: u32) -> Self {
        InterruptController {
            banks: [
                InterruptBank { status: self.banks[0].status & !mask, ..self.banks[0] },
                InterruptBank { status: self.banks[1].status & !mask, ..self.banks[1] },
            ],
            raw: self.raw,
        }
    }

    /// The 32-bit register that a byte address falls in.
    pub open spec fn register(self, addr: u32) -> u32 {
        let index = (addr >> 2u32) & 0x3F;
        let bank = self.banks[bank_of(addr)];
        if index == 0 || index == 8 {
            bank.status
        } else if index == 1 || index == 9 {
            bank.enabled
        } else if index == 2 || index == 10 {
            self.raw
        } else if index == 3 || index == 11 {
            bank.latched
        } else if index == 4 || index == 12 {
            bank.inverted
        } else if index == 5 || index == 13 {
            bank.status & bank.enabled
        } else if index == 20 {
            0x00010900
        } else if index == 21 {
            if lane(addr) & 16 != 0 {
                0
            } else {
                22
            }
        } else {
            0
        }
    }

    /// The bank that a byte write at `addr` produces.
    pub open spec fn bank_written(self, addr: u32, value: u8) -> InterruptBank {
        let index = (addr >> 2u32) & 0x3F;
        let sh = lane(addr);
        let mask = 0xFFu32 << sh;
        let shifted = (value as u32) << sh;
        let b = self.banks[bank_of(addr)];
        if index == 1 || index == 9 {
            InterruptBank { enabled: (b.enabled & !mask) | (shifted & mask), ..b }
        } else if index == 2 || index == 10 {
            InterruptBank { status: b.status & !(shifted & b.latched), ..b }
        } else if index == 3 || index == 11 {
            InterruptBank { latched: (b.latched & !mask) | (shifted & mask), ..b }
        } else if index == 4 || index == 12 {
            InterruptBank { inverted: (b.inverted & !mask) | (shifted & mask), ..b }
        } else {
            b
        }
    }

    /// The whole controller after a byte write.
    pub open spec fn written(self, addr: u32, value: u8) -> Self {
        InterruptController {
            banks: if bank_of(addr) == 0 {
                [self.bank_written(addr, value), self.banks[1]]
            } else {
                [self.banks[0], self.bank_written(addr, value)]
            },
            raw: self.raw,
        }
    }

    /// Create a new interrupt controller; PWR (bit 15) is set on power-up.
    pub fn new() -> (r: Self)
        ensures
            r == Self::power_on(),
    {
        let mut c = InterruptController {
            banks: [
                InterruptBank { status: 0, enabled: 0, latched: 0, inverted: 0 },
                InterruptBank { status: 0, enabled: 0, latched: 0, inverted: 0 },
            ],
            raw: 0,
        };
        c.raise(sources::PWR);
        c
    }

    /// Reset: clear all state, then raise PWR.
    pub fn reset(&mut self)
        ensures
            *final(self) == Self::power_on(),
    {
        self.banks = [
            InterruptBank { status: 0, enabled: 0, latched: 0, inverted: 0 },
            InterruptBank { status: 0, enabled: 0, latched: 0, inverted: 0 },
        ];
        self.raw = 0;
        self.raise(sources::PWR);
    }

    /// Whether any enabled interrupt is pending.
    pub fn irq_pending(&self) -> (r: bool)
        ensures
            r == self.pending(),
    {
        (self.banks[0].status & self.banks[0].enabled) != 0 || (self.banks[1].status
            & self.banks[1].enabled) != 0
    }

    /// Raise an interrupt source.
    pub fn raise(&mut self, source: u32)
        ensures
            *final(self) == old(self).with_source(source, true),
    {
        self.set_source(source, true);
    }

    /// The source went inactive (clears the raw state and unlatched status).
    pub fn clear_raw(&mut self, source: u32)
        ensures
            *final(self) == old(self).with_source(source, false),
    {
        self.set_source(source, false);
    }

    /// Acknowledge (clear) status bits in both banks.
    pub fn acknowledge(&mut self, mask: u32)
        ensures
            *final(self) == old(self).acknowledged(mask),
    {
        let mut b0 = self.banks[0];
        b0.status = b0.status & !mask;
        self.banks[0] = b0;
        let mut b1 = self.banks[1];
        b1.status = b1.status & !mask;
        self.banks[1] = b1;
        assert(self.banks@ =~= old(self).acknowledged(mask).banks@);
        assert(self.banks =~= old(self).acknowledged(mask).banks);
    }

    fn bank_set_source(b: InterruptBank, mask: u32, set: bool) -> (r: InterruptBank)
        ensures
            r == b.after_source(mask, set),
    {
        let inverted = b.inverted & mask;
        let mut r = b;
        if set != (inverted != 0) {
            r.status = r.status | mask;
        } else {
            r.status = r.status & (!mask | r.latched);
        }
        r
    }

    /// Drive a source to a level, updating raw state and both banks.
    pub fn set_source(&mut self, mask: u32, set: bool)
        ensures
            *final(self) == old(self).with_source(mask, set),
    {
        if set {
            self.raw = self.raw | mask;
        } else {
            self.raw = self.raw & !mask;
        }
        let b0 = Self::bank_set_source(self.banks[0], mask, set);
        self.banks[0] = b0;
        let b1 = Self::bank_set_source(self.banks[1], mask, set);
        self.banks[1] = b1;
        assert(self.banks@ =~= old(self).with_source(mask, set).banks@);
        assert(self.banks =~= old(self).with_source(mask, set).banks);
    }

    /// Read a register byte (address relative to the controller base).
    pub fn read(&self, addr: u32) -> (r: u8)
        ensures
            r == byte_at(self.register(addr), lane(addr)),
    {
        let index = (addr >> 2) & 0x3F;
        proof {
            lemma_bit_small(addr, 5);
        }
        let request = ((addr >> 5) & 0x01) as usize;
        let bit_offset = lane_of(addr);
        let bank = self.banks[request];
        let value: u32 = match index {
            0 | 8 => bank.status,
            1 | 9 => bank.enabled,
            2 | 10 => self.raw,
            3 | 11 => bank.latched,
            4 | 12 => bank.inverted,
            5 | 13 => bank.status & bank.enabled,
            20 => 0x00010900,
            21 => {
                if bit_offset & 16 != 0 {
                    0
                } else {
                    22
                }
            },
            _ => 0,
        };
        crate::bits::get_byte(value, bit_offset)
    }

    /// Write a register byte (address relative to the controller base).
    pub fn write(&mut self, addr: u32, value: u8)
        ensures
            *final(self) == old(self).written(addr, value),
    {
        let index = (addr >> 2) & 0x3F;
        proof {
            lemma_bit_small(addr, 5);
        }
        let request = ((addr >> 5) & 0x01) as usize;
        let bit_offset = lane_of(addr);
        let mask = 0xFF_u32 << bit_offset;
        let shifted_value = (value as u32) << bit_offset;
        let mut bank = self.banks[request];
        match index {
            1 | 9 => {
                bank.enabled = (bank.enabled & !mask) | (shifted_value & mask);
            },
            2 | 10 => {
                bank.status = bank.status & !(shifted_value & bank.latched);
            },
            3 | 11 => {
                bank.latched = (bank.latched & !mask) | (shifted_value & mask);
            },
            4 | 12 => {
                bank.inverted = (bank.inverted & !mask) | (shifted_value & mask);
            },
            _ => {},
        }
        self.banks[request] = bank;
        assert(self.banks@ =~= old(self).written(addr, value).banks@);
        assert(self.banks =~= old(self).written(addr, value).banks);
    }

    /// The 32-bit status word of a bank (0 or 1), for snapshots.
    pub fn status_word(&self, bank: usize) -> (r: u32)
        requires
            bank < 2,
        ensures
            r == self.banks[bank as int].status,
    {
        self.banks[bank].status
    }

    /// The 32-bit enable word of a bank, for snapshots.
    pub fn enabled_word(&self, bank: usize) -> (r: u32)
        requires
            bank < 2,
        ensures
            r == self.banks[bank as int].enabled,
    {
        self.banks[bank].enabled
    }

    /// The 32-bit latch word of a bank, for snapshots.
    pub fn latched_word(&self, bank: usize) -> (r: u32)
        requires
            bank < 2,
        ensures
            r == self.banks[bank as int].latched,
    {
        self.banks[bank].latched
    }

    /// The 32-bit inversion word of a bank, for snapshots.
    pub fn inverted_word(&self, bank: usize) -> (r: u32)
        requires
            bank < 2,
        ensures
            r == self.banks[bank as int].inverted,
    {
        self.banks[bank].inverted
    }

    /// Restore the status word of a bank.
    pub fn set_status_word(&mut self, bank: usize, value: u32)
        requires
            bank < 2,
        ensures
            final(self).banks@ == old(self).banks@.update(
                bank as int,
                InterruptBank { status: value, ..old(self).banks[bank as int] },
            ),
            final(self).raw == old(self).raw,
    {
        self.banks[bank].status = value;
    }

    /// Restore the enable word of a bank.
    pub fn set_enabled_word(&mut self, bank: usize, value: u32)
        requires
            bank < 2,
        ensures
            final(self).banks@ == old(self).banks@.update(
                bank as int,
                InterruptBank { enabled: value, ..old(self).banks[bank as int] },
            ),
            final(self).raw == old(self).raw,
    {
        self.banks[bank].enabled = value;
    }

    /// Restore the latch word of a bank.
    pub fn set_latched_word(&mut self, bank: usize, value: u32)
        requires
            bank < 2,
        ensures
            final(self).banks@ == old(self).banks@.update(
                bank as int,
                InterruptBank { latched: value, ..old(self).banks[bank as int] },
            ),
            final(self).raw == old(self).raw,
    {
        self.banks[bank].latched = value;
    }

    /// Restore the inversion word of a bank.
    pub fn set_inverted_word(&mut self, bank: usize, value: u32)
        requires
            bank < 2,
        ensures
            final(self).banks@ == old(self).banks@.update(
                bank as int,
                InterruptBank { inverted: value, ..old(self).banks[bank as int] },
            ),
            final(self).raw == old(self).raw,
    {
        self.banks[bank].inverted = value;
    }
}

/// An enable register reads back the byte last written to it, and the
/// controller's other registers are untouched by that write.
pub proof fn lemma_enable_write_read(ic: InterruptController, addr: u32, v: u8)
    requires
        (addr >> 2u32) & 0x3F == 1 || (addr >> 2u32) & 0x3F == 9,
    ensures
        byte_at(ic.written(addr, v).register(addr), lane(addr)) == v,
        ic.written(addr, v).raw == ic.raw,
        ic.written(addr, v).banks[bank_of(addr)].status == ic.banks[bank_of(addr)].status,
{
    let sh = lane(addr);
    crate::bits::lemma_mask_facts();
    assert(sh == 0 || sh == 8 || sh == 16 || sh == 24);
    assert(bank_of(addr) == 0 || bank_of(addr) == 1) by {
        lemma_bit_small(addr, 5);
    }
    let e = ic.banks[bank_of(addr)].enabled;
    assert(((((e & !(0xFFu32 << sh)) | ((((v as u32) << sh)) & (0xFFu32 << sh))) >> sh) & 0xFF) as u8
        == v) by (bit_vector)
        requires
            sh == 0 || sh == 8 || sh == 16 || sh == 24,
    ;
}

/// Raising a source that bank 0 enables and does not invert makes an
/// interrupt pending.
pub proof fn lemma_raise_enabled_pending(ic: InterruptController, src: u32)
    requires
        ic.banks[0].enabled & src != 0,
        ic.banks[0].inverted & src == 0,
    ensures
        ic.with_source(src, true).pending(),
{
    let st = ic.banks[0].status;
    let en = ic.banks[0].enabled;
    assert((st | src) & en != 0) by (bit_vector)
        requires
            en & src != 0,
    ;
}

/// After acknowledging a mask, no bit of the mask is set in either status word.
pub proof fn lemma_acknowledge_clears(ic: InterruptController, mask: u32)
    ensures
        ic.acknowledged(mask).banks[0].status & mask == 0,
        ic.acknowledged(mask).banks[1].status & mask == 0,
{
    let s0 = ic.banks[0].status;
    let s1 = ic.banks[1].status;
    assert((s0 & !mask) & mask == 0 && (s1 & !mask) & mask == 0) by (bit_vector);
}

/// A latched, non-inverted source keeps its status bit when the source goes
/// inactive, while its raw bit is cleared.
pub proof fn lemma_latched_status_persists(ic: InterruptController, src: u32)
    requires
        ic.banks[0].latched & src == src,
        ic.banks[0].inverted & src == 0,
        ic.banks[0].status & src == src,
    ensures
        ic.with_source(src, false).banks[0].status & src == src,
        ic.with_source(src, false).raw & src == 0,
{
    let st = ic.banks[0].status;
    let lt = ic.banks[0].latched;
    let r = ic.raw;
    assert((st & (!src | lt)) & src == src && (r & !src) & src == 0) by (bit_vector)
        requires
            lt & src == src,
            st & src == src,
    ;
}

} // verus!
