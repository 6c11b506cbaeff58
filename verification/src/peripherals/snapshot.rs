//! Saving and restoring the peripheral state as a 256-byte snapshot.
//!
//! Layout (multi-byte values little-endian, gaps zero):
//! - 0-16: control ports 0x00, 0x01, 0x03, 0x05, 0x06, 0x0D, 0x0F, 0x28,
//!   0x1D-0x1F, 0x20-0x25
//! - 32-35: flash registers 0x00, 0x01, 0x02, 0x05
//! - 40-71: interrupt status, enable, latch and inversion words (bank 0, 1)
//! - 72-143: per timer (24 bytes each): counter, reset, match 0, match 1,
//!   32 kHz cycle accumulator
//! - 144-160: LCD control, upper base, interrupt mask and status, compare state
//! - 168: OS timer level; 176-183: OS timer cycles
//! - 184-191: key matrix rows (bit c = column c)
//! - 192-221: LCD timing registers, current DMA address, row, column,
//!   prefill flag, FIFO position
//! - 224-235: timer control, status and mask words
use vstd::prelude::*;
use crate::bits::{le_u32, le_u64, read_le_u32, read_le_u64, put_le_u32, put_le_u64, get_le_u32, get_le_u64};
use crate::peripherals::{Peripherals, PeripheralsView};
use crate::peripherals::control::ControlPorts;
use crate::peripherals::flash::FlashController;
use crate::peripherals::interrupt::{InterruptController, InterruptBank};
use crate::peripherals::timer::{GeneralTimers, TimerRegs, upd3};
use crate::peripherals::lcd::{LcdState, compare_code, compare_of};

verus! {

/// Bytes in a peripheral snapshot.
pub const PERIPHERALS_SNAPSHOT_SIZE: usize = 256;

/// The control ports a snapshot holds, in order.
pub const SAVED_PORTS: [u32; 17] = [
    0x00, 0x01, 0x03, 0x05, 0x06, 0x0D, 0x0F, 0x28, 0x1D, 0x1E, 0x1F, 0x20, 0x21, 0x22, 0x23, 0x24,
    0x25,
];

/// The flash registers a snapshot holds, in order.
pub const SAVED_FLASH_REGS: [u32; 4] = [0x00, 0x01, 0x02, 0x05];

pub open spec fn flag(b: bool) -> u8 {
    if b {
        1
    } else {
        0
    }
}

/// Row `r` of the key matrix as a byte, from its first `n` columns.
pub open spec fn row_bits(keys: [[bool; 8]; 8], r: int, n: nat) -> u8
    decreases n,
{
    if n == 0 {
        0
    } else {
        row_bits(keys, r, (n - 1) as nat) | (if keys[r][n - 1] {
            1u8 << ((n - 1) as u8)
        } else {
            0u8
        })
    }
}

/// Snapshot byte positions that hold no data (and are zero).
pub open spec fn is_gap(i: int) -> bool {
    (17 <= i < 32) || (36 <= i < 40) || (92 <= i < 96) || (116 <= i < 120) || (140 <= i < 144)
        || (161 <= i < 168) || (169 <= i < 176) || (222 <= i < 224) || (236 <= i < 256)
}

/// Bytes outside `lo..hi` are the same in `a` and `b`.
pub open spec fn unchanged_outside(a: Seq<u8>, b: Seq<u8>, lo: int, hi: int) -> bool {
    &&& a.len() == b.len()
    &&& forall|i: int| 0 <= i < a.len() && !(lo <= i < hi) ==> #[trigger] b[i] == a[i]
}

/// Control ports and flash registers (bytes 0-39).
pub open spec fn ports_part(b: Seq<u8>, v: PeripheralsView) -> bool {
    &&& forall|i: int| 0 <= i < 17 ==> #[trigger] b[i] == v.control.port(SAVED_PORTS@[i])
    &&& forall|i: int| 0 <= i < 4 ==> #[trigger] b[32 + i] == v.flash.register(SAVED_FLASH_REGS@[i])
}

/// Interrupt controller words (bytes 40-71).
pub open spec fn interrupt_part(b: Seq<u8>, v: PeripheralsView) -> bool {
    &&& read_le_u32(b, 40) == v.interrupt.banks[0].status
    &&& read_le_u32(b, 44) == v.interrupt.banks[1].status
    &&& read_le_u32(b, 48) == v.interrupt.banks[0].enabled
    &&& read_le_u32(b, 52) == v.interrupt.banks[1].enabled
    &&& read_le_u32(b, 56) == v.interrupt.banks[0].latched
    &&& read_le_u32(b, 60) == v.interrupt.banks[1].latched
    &&& read_le_u32(b, 64) == v.interrupt.banks[0].inverted
    &&& read_le_u32(b, 68) == v.interrupt.banks[1].inverted
}

/// Timer `t`'s registers (24 bytes from 72 + 24 t).
pub open spec fn timer_part(b: Seq<u8>, v: PeripheralsView, t: int) -> bool {
    &&& read_le_u32(b, 72 + 24 * t) == v.timers.timer[t].counter
    &&& read_le_u32(b, 76 + 24 * t) == v.timers.timer[t].reset
    &&& read_le_u32(b, 80 + 24 * t) == v.timers.timer[t].match_val[0]
    &&& read_le_u32(b, 84 + 24 * t) == v.timers.timer[t].match_val[1]
    &&& read_le_u32(b, 88 + 24 * t) == v.timers.accum_cycles[t]
}

/// LCD registers and OS timer (bytes 144-183).
pub open spec fn lcd_os_part(b: Seq<u8>, v: PeripheralsView) -> bool {
    &&& read_le_u32(b, 144) == v.lcd.control
    &&& read_le_u32(b, 148) == v.lcd.upbase
    &&& read_le_u32(b, 152) == v.lcd.imsc as u32
    &&& read_le_u32(b, 156) == v.lcd.ris as u32
    &&& b[160] == compare_code(v.lcd.compare)
    &&& b[168] == flag(v.os_timer_state)
    &&& read_le_u64(b, 176) == v.os_timer_cycles
}

/// Key matrix rows (bytes 184-191).
pub open spec fn keys_part(b: Seq<u8>, v: PeripheralsView) -> bool {
    forall|r: int| 0 <= r < 8 ==> #[trigger] b[184 + r] == row_bits(v.key_state, r, 8)
}

/// LCD DMA state and timer words (bytes 192-235).
pub open spec fn dma_part(b: Seq<u8>, v: PeripheralsView) -> bool {
    &&& read_le_u32(b, 192) == v.lcd.timing[0]
    &&& read_le_u32(b, 196) == v.lcd.timing[1]
    &&& read_le_u32(b, 200) == v.lcd.timing[2]
    &&& read_le_u32(b, 204) == v.lcd.timing[3]
    &&& read_le_u32(b, 208) == v.lcd.upcurr
    &&& read_le_u32(b, 212) == v.lcd.cur_row
    &&& read_le_u32(b, 216) == v.lcd.cur_col
    &&& b[220] == flag(v.lcd.prefill)
    &&& b[221] == v.lcd.pos
    &&& read_le_u32(b, 224) == v.timers.control
    &&& read_le_u32(b, 228) == v.timers.status
    &&& read_le_u32(b, 232) == v.timers.mask
}

/// What `b` holds in the snapshot layout for the state `v`.
pub open spec fn snapshot_of(b: Seq<u8>, v: PeripheralsView) -> bool {
    &&& b.len() == 256
    &&& forall|i: int| 0 <= i < 256 && is_gap(i) ==> #[trigger] b[i] == 0
    &&& ports_part(b, v)
    &&& interrupt_part(b, v)
    &&& timer_part(b, v, 0)
    &&& timer_part(b, v, 1)
    &&& timer_part(b, v, 2)
    &&& lcd_os_part(b, v)
    &&& keys_part(b, v)
    &&& dma_part(b, v)
}

/// The control ports after the first `n` saved ports are written back
/// through their ports.
pub open spec fn ports_restored(c: ControlPorts, b: Seq<u8>, n: nat) -> ControlPorts
    decreases n,
{
    if n == 0 {
        c
    } else {
        ports_restored(c, b, (n - 1) as nat).written(SAVED_PORTS@[n - 1], b[n - 1])
    }
}

/// The flash controller after the first `n` saved registers are written back.
pub open spec fn flash_restored(f: FlashController, b: Seq<u8>, n: nat) -> FlashController
    decreases n,
{
    if n == 0 {
        f
    } else {
        flash_restored(f, b, (n - 1) as nat).registers_written(
            SAVED_FLASH_REGS@[n - 1],
            b[32 + n - 1],
        ).cached()
    }
}

/// The timers after the first `n` timers' registers are read back.
pub open spec fn timers_restored(t: GeneralTimers, b: Seq<u8>, n: nat) -> GeneralTimers
    decreases n,
{
    if n == 0 {
        t
    } else {
        let p = timers_restored(t, b, (n - 1) as nat);
        let i = n - 1;
        let at = 72 + 24 * i;
        GeneralTimers {
            timer: upd3(
                p.timer,
                i,
                TimerRegs {
                    counter: read_le_u32(b, at),
                    reset: read_le_u32(b, at + 4),
                    match_val: [read_le_u32(b, at + 8), read_le_u32(b, at + 12)],
                },
            ),
            accum_cycles: upd3(p.accum_cycles, i, read_le_u32(b, at + 16)),
            ..p
        }
    }
}

/// The key matrix holds the rows of a snapshot.
pub open spec fn keys_loaded(k: [[bool; 8]; 8], b: Seq<u8>) -> bool {
    forall|r: int, c: int|
        0 <= r < 8 && 0 <= c < 8 ==> #[trigger] k[r][c] == ((b[184 + r] & (1u8 << (c as u8)))
            != 0)
}

impl PeripheralsView {
    /// The state after restoring snapshot bytes `b` (the key matrix aside):
    /// saved control ports and flash registers are written back through their
    /// registers, all other saved values are
    /// loaded as they are, and the LCD timing parameters are re-derived.
    pub open spec fn restored(self, b: Seq<u8>) -> Self {
        let t = timers_restored(self.timers, b, 3);
        PeripheralsView {
            control: ports_restored(self.control, b, 17),
            flash: flash_restored(self.flash, b, 4),
            interrupt: InterruptController {
                banks: [
                    InterruptBank {
                        status: read_le_u32(b, 40),
                        enabled: read_le_u32(b, 48),
                        latched: read_le_u32(b, 56),
                        inverted: read_le_u32(b, 64),
                    },
                    InterruptBank {
                        status: read_le_u32(b, 44),
                        enabled: read_le_u32(b, 52),
                        latched: read_le_u32(b, 60),
                        inverted: read_le_u32(b, 68),
                    },
                ],
                raw: self.interrupt.raw,
            },
            timers: GeneralTimers {
                control: read_le_u32(b, 224),
                status: read_le_u32(b, 228),
                mask: read_le_u32(b, 232),
                ..t
            },
            lcd: LcdState {
                control: read_le_u32(b, 144),
                upbase: read_le_u32(b, 148),
                imsc: read_le_u32(b, 152) as u8,
                ris: read_le_u32(b, 156) as u8,
                compare: compare_of(b[160]),
                timing: seq![
                    read_le_u32(b, 192),
                    read_le_u32(b, 196),
                    read_le_u32(b, 200),
                    read_le_u32(b, 204),
                ],
                upcurr: read_le_u32(b, 208),
                cur_row: read_le_u32(b, 212),
                cur_col: read_le_u32(b, 216),
                prefill: b[220] != 0,
                pos: b[221],
                ..self.lcd
            }.extracted(),
            os_timer_state: b[168] != 0,
            os_timer_cycles: read_le_u64(b, 176),
            ..self
        }
    }
}

impl Peripherals {
    /// Bytes in a peripheral snapshot.
    pub const SNAPSHOT_SIZE: usize = 256;

    /// Save the peripheral state as snapshot bytes.
    pub fn to_bytes(&self) -> (r: [u8; 256])
        ensures
            snapshot_of(r@, self@),
    {
        let mut buf = [0u8; 256];
        assert(buf@ =~= Seq::new(256, |i: int| 0u8));
        self.save_ports(&mut buf);
        self.save_interrupts(&mut buf);
        self.save_timers(&mut buf);
        self.save_lcd_os(&mut buf);
        self.save_keys(&mut buf);
        self.save_dma(&mut buf);
        buf
    }

    /// Bytes 0-39: control ports and flash registers.
    fn save_ports(&self, buf: &mut [u8; 256])
        requires
            forall|i: int| 0 <= i < 256 ==> #[trigger] old(buf)@[i] == 0,
        ensures
            unchanged_outside(old(buf)@, final(buf)@, 0, 40),
            forall|i: int| 0 <= i < 40 && is_gap(i) ==> #[trigger] final(buf)@[i] == 0,
            ports_part(final(buf)@, self@),
    {
        let mut i: usize = 0;
        while i < 17
            invariant
                i <= 17,
                unchanged_outside(old(buf)@, buf@, 0, i as int),
                forall|j: int| 0 <= j < i ==> #[trigger] buf@[j] == self@.control.port(
                    SAVED_PORTS@[j],
                ),
            decreases 17 - i,
        {
            buf[i] = self.control.read(SAVED_PORTS[i]);
            i = i + 1;
        }
        let mut k: usize = 0;
        while k < 4
            invariant
                k <= 4,
                buf@.len() == 256,
                forall|j: int|
                    0 <= j < 256 && !(0 <= j < 17) && !(32 <= j < 32 + k) ==> #[trigger] buf@[j]
                        == old(buf)@[j],
                forall|j: int| 0 <= j < 17 ==> #[trigger] buf@[j] == self@.control.port(
                    SAVED_PORTS@[j],
                ),
                forall|j: int| 0 <= j < k ==> #[trigger] buf@[32 + j] == self@.flash.register(
                    SAVED_FLASH_REGS@[j],
                ),
            decreases 4 - k,
        {
            buf[32 + k] = self.flash.read(SAVED_FLASH_REGS[k]);
            k = k + 1;
        }
    }

    /// Bytes 40-71: interrupt controller words.
    fn save_interrupts(&self, buf: &mut [u8; 256])
        ensures
            unchanged_outside(old(buf)@, final(buf)@, 40, 72),
            interrupt_part(final(buf)@, self@),
    {
        put_le_u32(buf, 40, self.interrupt.status_word(0));
        put_le_u32(buf, 44, self.interrupt.status_word(1));
        put_le_u32(buf, 48, self.interrupt.enabled_word(0));
        put_le_u32(buf, 52, self.interrupt.enabled_word(1));
        put_le_u32(buf, 56, self.interrupt.latched_word(0));
        put_le_u32(buf, 60, self.interrupt.latched_word(1));
        put_le_u32(buf, 64, self.interrupt.inverted_word(0));
        put_le_u32(buf, 68, self.interrupt.inverted_word(1));
    }

    /// Bytes 72-143: the three timers, 24 bytes each (the last 4 are a gap).
    fn save_timers(&self, buf: &mut [u8; 256])
        ensures
            unchanged_outside(old(buf)@, final(buf)@, 72, 144),
            forall|i: int| 72 <= i < 144 && is_gap(i) ==> final(buf)@[i] == old(buf)@[i],
            timer_part(final(buf)@, self@, 0),
            timer_part(final(buf)@, self@, 1),
            timer_part(final(buf)@, self@, 2),
    {
        self.save_timer(buf, 0);
        self.save_timer(buf, 1);
        self.save_timer(buf, 2);
    }

    /// The 20 data bytes of timer `t`.
    fn save_timer(&self, buf: &mut [u8; 256], t: usize)
        requires
            t < 3,
        ensures
            unchanged_outside(old(buf)@, final(buf)@, 72 + 24 * t, 92 + 24 * t),
            timer_part(final(buf)@, self@, t as int),
    {
        let at = 72 + 24 * t;
        put_le_u32(buf, at, self.timers.counter(t));
        put_le_u32(buf, at + 4, self.timers.reset_value(t));
        let ghost b1 = buf@;
        self.save_timer_matches(buf, t);
        assert(read_le_u32(b1, at as int) == read_le_u32(buf@, at as int));
        assert(read_le_u32(b1, at + 4) == read_le_u32(buf@, at + 4));
    }

    /// Bytes 8-19 of timer `t`'s slot: match values and cycle accumulator.
    fn save_timer_matches(&self, buf: &mut [u8; 256], t: usize)
        requires
            t < 3,
        ensures
            unchanged_outside(old(buf)@, final(buf)@, 80 + 24 * t, 92 + 24 * t),
            read_le_u32(final(buf)@, 80 + 24 * t) == self.timers.timer[t as int].match_val[0],
            read_le_u32(final(buf)@, 84 + 24 * t) == self.timers.timer[t as int].match_val[1],
            read_le_u32(final(buf)@, 88 + 24 * t) == self.timers.accum_cycles[t as int],
    {
        let at = 80 + 24 * t;
        put_le_u32(buf, at, self.timers.match_val(t, 0));
        put_le_u32(buf, at + 4, self.timers.match_val(t, 1));
        let ghost b1 = buf@;
        put_le_u32(buf, at + 8, self.timers.accum_cycles(t));
        assert(read_le_u32(b1, at as int) == read_le_u32(buf@, at as int));
        assert(read_le_u32(b1, at + 4) == read_le_u32(buf@, at + 4));
    }

    /// Bytes 144-183: LCD registers, compare state, OS timer.
    fn save_lcd_os(&self, buf: &mut [u8; 256])
        ensures
            unchanged_outside(old(buf)@, final(buf)@, 144, 184),
            forall|i: int| 144 <= i < 184 && is_gap(i) ==> final(buf)@[i] == old(buf)@[i],
            lcd_os_part(final(buf)@, self@),
    {
        let ghost b0 = buf@;
        put_le_u32(buf, 144, self.lcd.control());
        put_le_u32(buf, 148, self.lcd.upbase());
        put_le_u32(buf, 152, self.lcd.int_mask());
        put_le_u32(buf, 156, self.lcd.int_status());
        let ghost b1 = buf@;
        let c = self.lcd.compare_state();
        let o: u8 = if self.os_timer_state {
            1
        } else {
            0
        };
        self.save_lcd_os_tail(buf, c, o);
        assert(read_le_u32(b1, 144) == read_le_u32(buf@, 144));
        assert(read_le_u32(b1, 148) == read_le_u32(buf@, 148));
        assert(read_le_u32(b1, 152) == read_le_u32(buf@, 152));
        assert(read_le_u32(b1, 156) == read_le_u32(buf@, 156));
    }

    /// Bytes 160-183: compare state, OS timer level and cycles.
    fn save_lcd_os_tail(&self, buf: &mut [u8; 256], c: u8, o: u8)
        ensures
            unchanged_outside(old(buf)@, final(buf)@, 160, 184),
            forall|i: int| 160 <= i < 184 && is_gap(i) ==> final(buf)@[i] == old(buf)@[i],
            final(buf)@[160] == c,
            final(buf)@[168] == o,
            read_le_u64(final(buf)@, 176) == self.os_timer_cycles,
    {
        buf[160] = c;
        buf[168] = o;
        put_le_u64(buf, 176, self.os_timer_cycles);
    }

    /// Bytes 184-191: key matrix rows.
    fn save_keys(&self, buf: &mut [u8; 256])
        ensures
            unchanged_outside(old(buf)@, final(buf)@, 184, 192),
            keys_part(final(buf)@, self@),
    {
        let mut row: usize = 0;
        while row < 8
            invariant
                row <= 8,
                unchanged_outside(old(buf)@, buf@, 184, 184 + row),
                forall|r: int| 0 <= r < row ==> #[trigger] buf@[184 + r] == row_bits(
                    self.key_state,
                    r,
                    8,
                ),
            decreases 8 - row,
        {
            let mut bits: u8 = 0;
            let mut col: usize = 0;
            while col < 8
                invariant
                    col <= 8,
                    row < 8,
                    bits == row_bits(self.key_state, row as int, col as nat),
                decreases 8 - col,
            {
                if self.key_state[row][col] {
                    bits = bits | (1u8 << (col as u8));
                } else {
                    proof {
                        crate::bits::lemma_mask_facts();
                    }
                    assert(bits | 0u8 == bits);
                }
                col = col + 1;
            }
            buf[184 + row] = bits;
            row = row + 1;
        }
    }

    /// Bytes 192-235: LCD DMA state and the timer control, status, mask words.
    fn save_dma(&self, buf: &mut [u8; 256])
        ensures
            unchanged_outside(old(buf)@, final(buf)@, 192, 236),
            forall|i: int| 192 <= i < 236 && is_gap(i) ==> final(buf)@[i] == old(buf)@[i],
            dma_part(final(buf)@, self@),
    {
        let timing = self.lcd.timing();
        put_le_u32(buf, 192, timing[0]);
        put_le_u32(buf, 196, timing[1]);
        put_le_u32(buf, 200, timing[2]);
        put_le_u32(buf, 204, timing[3]);
        put_le_u32(buf, 208, self.lcd.upcurr());
        put_le_u32(buf, 212, self.lcd.cur_row());
        put_le_u32(buf, 216, self.lcd.cur_col());
        buf[220] = if self.lcd.prefill() {
            1
        } else {
            0
        };
        buf[221] = self.lcd.pos();
        put_le_u32(buf, 224, self.timers.control_word());
        put_le_u32(buf, 228, self.timers.status_word());
        put_le_u32(buf, 232, self.timers.mask_word());
    }

    /// Restore the peripheral state from snapshot bytes: the saved control
    /// ports and flash registers are written back through their registers,
    /// the other values are loaded, and the LCD timing is re-derived; saving
    /// again then gives the same bytes (`lemma_snapshot_reproduced`), but for
    /// a saved flash-ready bit, which no port write can set. Fails with -105, changing
    /// nothing, when fewer than 256 bytes are given.
    pub fn from_bytes(&mut self, buf: &[u8]) -> (r: Result<(), i32>)
        requires
            old(self)@.wf(),
        ensures
            buf@.len() < 256 ==> r == Err::<(), i32>(-105i32) && final(self)@ == old(self)@,
            buf@.len() >= 256 ==> r == Ok::<(), i32>(()) && final(self)@ == (PeripheralsView {
                key_state: final(self)@.key_state,
                ..old(self)@.restored(buf@)
            }) && keys_loaded(final(self)@.key_state, buf@),
            final(self)@.wf(),
    {
        if buf.len() < 256 {
            return Err(-105);
        }
        self.load_ports(buf);
        self.interrupt.set_status_word(0, get_le_u32(buf, 40));
        self.interrupt.set_status_word(1, get_le_u32(buf, 44));
        self.interrupt.set_enabled_word(0, get_le_u32(buf, 48));
        self.interrupt.set_enabled_word(1, get_le_u32(buf, 52));
        self.interrupt.set_latched_word(0, get_le_u32(buf, 56));
        self.interrupt.set_latched_word(1, get_le_u32(buf, 60));
        self.interrupt.set_inverted_word(0, get_le_u32(buf, 64));
        self.interrupt.set_inverted_word(1, get_le_u32(buf, 68));
        assert(self@.interrupt.banks =~= old(self)@.restored(buf@).interrupt.banks);
        let ghost t0 = old(self)@.timers;
        assert(timers_restored(t0, buf@, 0) == t0);
        self.load_timer(buf, 0);
        assert(self@.timers == timers_restored(t0, buf@, 1));
        self.load_timer(buf, 1);
        assert(self@.timers == timers_restored(t0, buf@, 2));
        self.load_timer(buf, 2);
        assert(self@.timers == timers_restored(t0, buf@, 3));
        self.lcd.set_control(get_le_u32(buf, 144));
        self.lcd.set_upbase(get_le_u32(buf, 148));
        self.lcd.set_int_mask(get_le_u32(buf, 152));
        self.lcd.set_int_status(get_le_u32(buf, 156));
        self.lcd.set_compare_state(buf[160]);
        self.os_timer_state = buf[168] != 0;
        self.os_timer_cycles = get_le_u64(buf, 176);
        self.load_keys(buf);
        let timing = [
            get_le_u32(buf, 192),
            get_le_u32(buf, 196),
            get_le_u32(buf, 200),
            get_le_u32(buf, 204),
        ];
        self.lcd.set_timing(timing);
        self.lcd.set_upcurr(get_le_u32(buf, 208));
        self.lcd.set_cur_row(get_le_u32(buf, 212));
        self.lcd.set_cur_col(get_le_u32(buf, 216));
        self.lcd.set_prefill(buf[220] != 0);
        self.lcd.set_pos(buf[221]);
        self.lcd.recompute_timing();
        self.timers.set_control_word(get_le_u32(buf, 224));
        self.timers.set_status_word(get_le_u32(buf, 228));
        self.timers.set_mask_word(get_le_u32(buf, 232));
        assert(self@.lcd.timing =~= old(self)@.restored(buf@).lcd.timing);
        assert(self@.lcd == old(self)@.restored(buf@).lcd);
        assert(self@.timers == old(self)@.restored(buf@).timers);
        assert(self@.interrupt == old(self)@.restored(buf@).interrupt);
        assert(self@.control == old(self)@.restored(buf@).control);
        assert(self@.flash == old(self)@.restored(buf@).flash);
        assert(self@ =~= (PeripheralsView {
            key_state: self@.key_state,
            ..old(self)@.restored(buf@)
        }));
        Ok(())
    }

    /// Write the saved control ports and flash registers back.
    fn load_ports(&mut self, buf: &[u8])
        requires
            buf@.len() >= 256,
            old(self)@.wf(),
        ensures
            final(self)@ == (PeripheralsView {
                control: ports_restored(old(self)@.control, buf@, 17),
                flash: flash_restored(old(self)@.flash, buf@, 4),
                ..old(self)@
            }),
            final(self)@.wf(),
    {
        let mut i: usize = 0;
        while i < 17
            invariant
                i <= 17,
                buf@.len() >= 256,
                old(self)@.wf(),
                self@ == (PeripheralsView {
                    control: ports_restored(old(self)@.control, buf@, i as nat),
                    ..old(self)@
                }),
            decreases 17 - i,
        {
            self.control.write(SAVED_PORTS[i], buf[i]);
            i = i + 1;
        }
        let mut k: usize = 0;
        while k < 4
            invariant
                k <= 4,
                buf@.len() >= 256,
                old(self)@.wf(),
                self@.flash.wf(),
                self@ == (PeripheralsView {
                    control: ports_restored(old(self)@.control, buf@, 17),
                    flash: flash_restored(old(self)@.flash, buf@, k as nat),
                    ..old(self)@
                }),
            decreases 4 - k,
        {
            self.flash.write(SAVED_FLASH_REGS[k], buf[32 + k]);
            k = k + 1;
        }
    }

    /// Load timer `t`'s saved registers.
    fn load_timer(&mut self, buf: &[u8], t: usize)
        requires
            buf@.len() >= 256,
            t < 3,
        ensures
            final(self)@ == (PeripheralsView {
                timers: GeneralTimers {
                    timer: upd3(
                        old(self)@.timers.timer,
                        t as int,
                        TimerRegs {
                            counter: read_le_u32(buf@, 72 + 24 * t),
                            reset: read_le_u32(buf@, 76 + 24 * t),
                            match_val: [read_le_u32(buf@, 80 + 24 * t), read_le_u32(buf@, 84 + 24 * t)],
                        },
                    ),
                    accum_cycles: upd3(
                        old(self)@.timers.accum_cycles,
                        t as int,
                        read_le_u32(buf@, 88 + 24 * t),
                    ),
                    ..old(self)@.timers
                },
                ..old(self)@
            }),
    {
        let at = 72 + 24 * t;
        self.timers.set_counter(t, get_le_u32(buf, at));
        self.timers.set_reset_value(t, get_le_u32(buf, at + 4));
        self.timers.set_match_val(t, 0, get_le_u32(buf, at + 8));
        self.timers.set_match_val(t, 1, get_le_u32(buf, at + 12));
        self.timers.set_accum_cycles(t, get_le_u32(buf, at + 16));
        assert(self.timers.timer =~= upd3(
            old(self)@.timers.timer,
            t as int,
            TimerRegs {
                counter: read_le_u32(buf@, 72 + 24 * t),
                reset: read_le_u32(buf@, 76 + 24 * t),
                match_val: [read_le_u32(buf@, 80 + 24 * t), read_le_u32(buf@, 84 + 24 * t)],
            },
        ));
    }

    /// Load the key matrix rows.
    fn load_keys(&mut self, buf: &[u8])
        requires
            buf@.len() >= 256,
        ensures
            final(self)@ == (PeripheralsView { key_state: final(self)@.key_state, ..old(self)@ }),
            keys_loaded(final(self)@.key_state, buf@),
    {
        let mut row: usize = 0;
        while row < 8
            invariant
                row <= 8,
                buf@.len() >= 256,
                self@ == (PeripheralsView { key_state: self@.key_state, ..old(self)@ }),
                forall|r: int, c: int|
                    0 <= r < row && 0 <= c < 8 ==> #[trigger] self.key_state[r][c] == ((buf@[184
                        + r] & (1u8 << (c as u8))) != 0),
            decreases 8 - row,
        {
            let bits = buf[184 + row];
            let mut col: usize = 0;
            while col < 8
                invariant
                    col <= 8,
                    row < 8,
                    bits == buf@[184 + row],
                    self@ == (PeripheralsView { key_state: self@.key_state, ..old(self)@ }),
                    forall|r: int, c: int|
                        0 <= r < row && 0 <= c < 8 ==> #[trigger] self.key_state[r][c] == ((buf@[184
                            + r] & (1u8 << (c as u8))) != 0),
                    forall|c: int|
                        0 <= c < col ==> #[trigger] self.key_state[row as int][c] == ((bits & (1u8
                            << (c as u8))) != 0),
                decreases 8 - col,
            {
                self.key_state[row][col] = (bits & (1u8 << (col as u8))) != 0;
                col = col + 1;
            }
            row = row + 1;
        }
    }
}

/// A key matrix row packed into a byte has bit `c` set exactly when column
/// `c` is among the first `n` columns and its key is held.
pub proof fn lemma_row_bits(keys: [[bool; 8]; 8], r: int, n: nat, c: u8)
    requires
        n <= 8,
        c < 8,
    ensures
        (row_bits(keys, r, n) & (1u8 << c)) != 0 <==> (c < n && keys[r][c as int]),
    decreases n,
{
    crate::bits::lemma_mask_facts();
    if n > 0 {
        lemma_row_bits(keys, r, (n - 1) as nat, c);
        let x = row_bits(keys, r, (n - 1) as nat);
        let a = (n - 1) as u8;
        assert(((x | (1u8 << a)) & (1u8 << c) != 0 <==> ((x & (1u8 << c)) != 0 || a == c)) && ((x
            | 0u8) & (1u8 << c) != 0 <==> (x & (1u8 << c)) != 0)) by (bit_vector)
            requires
                a < 8,
                c < 8,
        ;
    } else {
        assert(0u8 & (1u8 << c) <= 0u8);
    }
}

/// Decoding the key rows of a snapshot gives back the saved key matrix.
proof fn lemma_snapshot_keys(p: PeripheralsView, b: Seq<u8>, keys: [[bool; 8]; 8])
    requires
        keys_part(b, p),
        keys_loaded(keys, b),
    ensures
        keys == p.key_state,
{
    assert forall|r: int, c: int| 0 <= r < 8 && 0 <= c < 8 implies keys[r][c] == p.key_state[r][c] by {
        assert(b[184 + r] == row_bits(p.key_state, r, 8));
        lemma_row_bits(p.key_state, r, 8, c as u8);
        assert(keys[r][c] == ((b[184 + r] & (1u8 << (c as u8))) != 0));
    }
    assert forall|r: int| 0 <= r < 8 implies keys[r] =~= p.key_state[r] by {}
    assert(keys =~= p.key_state);
}

/// Restoring a snapshot brings back the saved timer registers.
proof fn lemma_snapshot_timers(p: PeripheralsView, q: PeripheralsView, b: Seq<u8>)
    requires
        timer_part(b, p, 0),
        timer_part(b, p, 1),
        timer_part(b, p, 2),
    ensures
        timers_restored(q.timers, b, 3).timer == p.timers.timer,
        timers_restored(q.timers, b, 3).accum_cycles == p.timers.accum_cycles,
{
    let t1 = timers_restored(q.timers, b, 1);
    let t2 = timers_restored(q.timers, b, 2);
    let t3 = timers_restored(q.timers, b, 3);
    assert(timers_restored(q.timers, b, 0) == q.timers);
    assert(t1.timer[0].match_val =~= p.timers.timer[0].match_val);
    assert(t2.timer[1].match_val =~= p.timers.timer[1].match_val);
    assert(t3.timer[2].match_val =~= p.timers.timer[2].match_val);
    assert(t3.timer[0] == p.timers.timer[0]);
    assert(t3.timer[1] == p.timers.timer[1]);
    assert(t3.timer[2] == p.timers.timer[2]);
    assert(t3.timer =~= p.timers.timer);
    assert(t3.accum_cycles =~= p.timers.accum_cycles);
}

/// Restoring a snapshot brings back the saved LCD registers and DMA position.
proof fn lemma_snapshot_lcd(p: PeripheralsView, q: PeripheralsView, b: Seq<u8>)
    requires
        lcd_os_part(b, p),
        dma_part(b, p),
        p.lcd.wf(),
    ensures
        q.restored(b).lcd.timing == p.lcd.timing,
        q.restored(b).lcd.control == p.lcd.control,
        q.restored(b).lcd.upbase == p.lcd.upbase,
        q.restored(b).lcd.upcurr == p.lcd.upcurr,
        q.restored(b).lcd.cur_row == p.lcd.cur_row,
        q.restored(b).lcd.cur_col == p.lcd.cur_col,
        q.restored(b).lcd.prefill == p.lcd.prefill,
        q.restored(b).lcd.pos == p.lcd.pos,
{
    assert(q.restored(b).lcd.timing =~= p.lcd.timing);
}

/// Writing the saved control ports back over any control state whose device
/// type matches gives every saved port its saved value again, when the
/// saved state was settled and its flash unlock byte held no bit but 0 and 2
/// (a port write can only clear the others).
proof fn lemma_ports_reproduced(c: ControlPorts, pc: ControlPorts, b: Seq<u8>)
    requires
        b.len() >= 17,
        pc.settled(),
        pc.flash_unlock & 0xFA == 0,
        c.device_type == pc.device_type,
        forall|i: int| 0 <= i < 17 ==> #[trigger] b[i] == pc.port(SAVED_PORTS@[i]),
    ensures
        forall|i: int|
            0 <= i < 17 ==> #[trigger] ports_restored(c, b, 17).port(SAVED_PORTS@[i]) == b[i],
{
    assert(SAVED_PORTS@[0] == 0x00u32);
    assert(ports_restored(c, b, 1) == ports_restored(c, b, 0).written(0x00u32, b[0]));
    assert(SAVED_PORTS@[1] == 0x01u32);
    assert(ports_restored(c, b, 2) == ports_restored(c, b, 1).written(0x01u32, b[1]));
    assert(SAVED_PORTS@[2] == 0x03u32);
    assert(ports_restored(c, b, 3) == ports_restored(c, b, 2).written(0x03u32, b[2]));
    assert(SAVED_PORTS@[3] == 0x05u32);
    assert(ports_restored(c, b, 4) == ports_restored(c, b, 3).written(0x05u32, b[3]));
    assert(SAVED_PORTS@[4] == 0x06u32);
    assert(ports_restored(c, b, 5) == ports_restored(c, b, 4).written(0x06u32, b[4]));
    assert(SAVED_PORTS@[5] == 0x0Du32);
    assert(ports_restored(c, b, 6) == ports_restored(c, b, 5).written(0x0Du32, b[5]));
    assert(SAVED_PORTS@[6] == 0x0Fu32);
    assert(ports_restored(c, b, 7) == ports_restored(c, b, 6).written(0x0Fu32, b[6]));
    assert(SAVED_PORTS@[7] == 0x28u32);
    assert(ports_restored(c, b, 8) == ports_restored(c, b, 7).written(0x28u32, b[7]));
    assert(SAVED_PORTS@[8] == 0x1Du32);
    assert(ports_restored(c, b, 9) == ports_restored(c, b, 8).written(0x1Du32, b[8]));
    assert(SAVED_PORTS@[9] == 0x1Eu32);
    assert(ports_restored(c, b, 10) == ports_restored(c, b, 9).written(0x1Eu32, b[9]));
    assert(SAVED_PORTS@[10] == 0x1Fu32);
    assert(ports_restored(c, b, 11) == ports_restored(c, b, 10).written(0x1Fu32, b[10]));
    assert(SAVED_PORTS@[11] == 0x20u32);
    assert(ports_restored(c, b, 12) == ports_restored(c, b, 11).written(0x20u32, b[11]));
    assert(SAVED_PORTS@[12] == 0x21u32);
    assert(ports_restored(c, b, 13) == ports_restored(c, b, 12).written(0x21u32, b[12]));
    assert(SAVED_PORTS@[13] == 0x22u32);
    assert(ports_restored(c, b, 14) == ports_restored(c, b, 13).written(0x22u32, b[13]));
    assert(SAVED_PORTS@[14] == 0x23u32);
    assert(ports_restored(c, b, 15) == ports_restored(c, b, 14).written(0x23u32, b[14]));
    assert(SAVED_PORTS@[15] == 0x24u32);
    assert(ports_restored(c, b, 16) == ports_restored(c, b, 15).written(0x24u32, b[15]));
    assert(SAVED_PORTS@[16] == 0x25u32);
    assert(ports_restored(c, b, 17) == ports_restored(c, b, 16).written(0x25u32, b[16]));
    let r = ports_restored(c, b, 17);
    crate::peripherals::control::lemma_port_bits();
    crate::peripherals::control::lemma_byte24_written(c.privileged, b[8], b[9], b[10]);
    crate::peripherals::control::lemma_byte24_written(c.protected_start, b[11], b[12], b[13]);
    crate::peripherals::control::lemma_byte24_written(c.protected_end, b[14], b[15], b[16]);
    assert(b[0] == pc.power && b[1] == pc.cpu_speed && b[3] == pc.control_flags && b[4]
        == pc.unlock_status && b[5] == pc.lcd_enable && b[6] == pc.usb_control | 0xC0) by {
        assert(SAVED_PORTS@[0] == 0x00u32 && SAVED_PORTS@[1] == 0x01u32 && SAVED_PORTS@[3] == 0x05u32
            && SAVED_PORTS@[4] == 0x06u32 && SAVED_PORTS@[5] == 0x0Du32 && SAVED_PORTS@[6]
            == 0x0Fu32);
        assert(b[0] == pc.port(SAVED_PORTS@[0]) && b[1] == pc.port(SAVED_PORTS@[1]) && b[3]
            == pc.port(SAVED_PORTS@[3]) && b[4] == pc.port(SAVED_PORTS@[4]) && b[5] == pc.port(
            SAVED_PORTS@[5]) && b[6] == pc.port(SAVED_PORTS@[6]));
    }
    assert(b[2] == pc.device_type) by {
        assert(SAVED_PORTS@[2] == 0x03u32);
        assert(b[2] == pc.port(SAVED_PORTS@[2]));
    }
    assert(((pc.usb_control | 0xC0) & 3) | 0xC0 == pc.usb_control | 0xC0);
    assert(b[7] == pc.flash_unlock) by {
        assert(b[7] == pc.port(SAVED_PORTS@[7]));
    }
    assert((ports_restored(c, b, 7).flash_unlock | 5) & b[7] == b[7]);
    assert forall|i: int| 0 <= i < 17 implies #[trigger] r.port(SAVED_PORTS@[i]) == b[i] by {
        if i == 0 {
            assert(SAVED_PORTS@[0] == 0x00u32);
        } else if i == 1 {
            assert(SAVED_PORTS@[1] == 0x01u32);
        } else if i == 2 {
            assert(SAVED_PORTS@[2] == 0x03u32);
        } else if i == 3 {
            assert(SAVED_PORTS@[3] == 0x05u32);
        } else if i == 4 {
            assert(SAVED_PORTS@[4] == 0x06u32);
        } else if i == 5 {
            assert(SAVED_PORTS@[5] == 0x0Du32);
        } else if i == 6 {
            assert(SAVED_PORTS@[6] == 0x0Fu32);
        } else if i == 7 {
            assert(SAVED_PORTS@[7] == 0x28u32);
        } else if i == 8 {
            assert(SAVED_PORTS@[8] == 0x1Du32);
        } else if i == 9 {
            assert(SAVED_PORTS@[9] == 0x1Eu32);
        } else if i == 10 {
            assert(SAVED_PORTS@[10] == 0x1Fu32);
        } else if i == 11 {
            assert(SAVED_PORTS@[11] == 0x20u32);
        } else if i == 12 {
            assert(SAVED_PORTS@[12] == 0x21u32);
        } else if i == 13 {
            assert(SAVED_PORTS@[13] == 0x22u32);
        } else if i == 14 {
            assert(SAVED_PORTS@[14] == 0x23u32);
        } else if i == 15 {
            assert(SAVED_PORTS@[15] == 0x24u32);
        } else if i == 16 {
            assert(SAVED_PORTS@[16] == 0x25u32);
        }
    }
}

/// Restoring a snapshot of a state brings back its interrupt words, timers,
/// LCD registers and DMA position, OS timer and key matrix, whatever state it
/// is restored into.
#[verifier::spinoff_prover]
pub proof fn lemma_snapshot_restores(
    p: PeripheralsView,
    q: PeripheralsView,
    b: Seq<u8>,
    keys: [[bool; 8]; 8],
)
    requires
        p.wf(),
        snapshot_of(b, p),
        keys_loaded(keys, b),
    ensures
        q.restored(b).interrupt.banks == p.interrupt.banks,
        q.restored(b).timers.timer == p.timers.timer,
        q.restored(b).timers.accum_cycles == p.timers.accum_cycles,
        q.restored(b).timers.control == p.timers.control,
        q.restored(b).timers.status == p.timers.status,
        q.restored(b).timers.mask == p.timers.mask,
        q.restored(b).lcd.timing == p.lcd.timing,
        q.restored(b).lcd.control == p.lcd.control,
        q.restored(b).lcd.upbase == p.lcd.upbase,
        q.restored(b).lcd.upcurr == p.lcd.upcurr,
        q.restored(b).lcd.cur_row == p.lcd.cur_row,
        q.restored(b).lcd.cur_col == p.lcd.cur_col,
        q.restored(b).lcd.prefill == p.lcd.prefill,
        q.restored(b).lcd.pos == p.lcd.pos,
        q.restored(b).os_timer_state == p.os_timer_state,
        q.restored(b).os_timer_cycles == p.os_timer_cycles,
        keys == p.key_state,
{
    lemma_snapshot_keys(p, b, keys);
    lemma_snapshot_timers(p, q, b);
    lemma_snapshot_lcd(p, q, b);
    assert(q.restored(b).interrupt.banks =~= p.interrupt.banks);
}

/// Writing the saved flash registers back over any flash controller gives
/// each saved register its saved value again, when the saved controller's
/// enable and map select values were within their writable bits.
proof fn lemma_flash_reproduced(f: FlashController, pf: FlashController, b: Seq<u8>)
    requires
        b.len() >= 36,
        pf.enable <= 1,
        pf.map_select & 0x0F == pf.map_select,
        forall|i: int| 0 <= i < 4 ==> #[trigger] b[32 + i] == pf.register(SAVED_FLASH_REGS@[i]),
    ensures
        forall|i: int|
            0 <= i < 4 ==> #[trigger] flash_restored(f, b, 4).register(SAVED_FLASH_REGS@[i]) == b[32
                + i],
{
    assert(SAVED_FLASH_REGS@[0] == 0x00u32 && SAVED_FLASH_REGS@[1] == 0x01u32
        && SAVED_FLASH_REGS@[2] == 0x02u32 && SAVED_FLASH_REGS@[3] == 0x05u32);
    assert(b[32 + 0int] == pf.register(SAVED_FLASH_REGS@[0]) && b[32 + 2int] == pf.register(
        SAVED_FLASH_REGS@[2]));
    crate::peripherals::control::lemma_port_bits();
    assert(pf.enable & 1 == pf.enable);
    assert(flash_restored(f, b, 0) == f);
    assert(flash_restored(f, b, 1) == flash_restored(f, b, 0).registers_written(0x00u32, b[32]).cached());
    assert(flash_restored(f, b, 2) == flash_restored(f, b, 1).registers_written(0x01u32, b[33]).cached());
    assert(flash_restored(f, b, 3) == flash_restored(f, b, 2).registers_written(0x02u32, b[34]).cached());
    assert(flash_restored(f, b, 4) == flash_restored(f, b, 3).registers_written(0x05u32, b[35]).cached());
    let r = flash_restored(f, b, 4);
    assert(r.enable == b[32] & 1 && r.size_config == b[33] && r.map_select == b[34] & 0x0F
        && r.wait_states == b[35]);
    assert forall|i: int| 0 <= i < 4 implies #[trigger] r.register(SAVED_FLASH_REGS@[i]) == b[32
        + i] by {
        assert(b[32 + i] == pf.register(SAVED_FLASH_REGS@[i]));
    }
}

/// A snapshot is fixed by the state it holds: two byte images of one state
/// are the same.
pub proof fn lemma_snapshot_unique(a: Seq<u8>, b: Seq<u8>, v: PeripheralsView)
    requires
        snapshot_of(a, v),
        snapshot_of(b, v),
    ensures
        a == b,
{
    crate::bits::lemma_le_u32_bytes(a, b, 40);
    crate::bits::lemma_le_u32_bytes(a, b, 44);
    crate::bits::lemma_le_u32_bytes(a, b, 48);
    crate::bits::lemma_le_u32_bytes(a, b, 52);
    crate::bits::lemma_le_u32_bytes(a, b, 56);
    crate::bits::lemma_le_u32_bytes(a, b, 60);
    crate::bits::lemma_le_u32_bytes(a, b, 64);
    crate::bits::lemma_le_u32_bytes(a, b, 68);
    crate::bits::lemma_le_u32_bytes(a, b, 72);
    crate::bits::lemma_le_u32_bytes(a, b, 76);
    crate::bits::lemma_le_u32_bytes(a, b, 80);
    crate::bits::lemma_le_u32_bytes(a, b, 84);
    crate::bits::lemma_le_u32_bytes(a, b, 88);
    crate::bits::lemma_le_u32_bytes(a, b, 96);
    crate::bits::lemma_le_u32_bytes(a, b, 100);
    crate::bits::lemma_le_u32_bytes(a, b, 104);
    crate::bits::lemma_le_u32_bytes(a, b, 108);
    crate::bits::lemma_le_u32_bytes(a, b, 112);
    crate::bits::lemma_le_u32_bytes(a, b, 120);
    crate::bits::lemma_le_u32_bytes(a, b, 124);
    crate::bits::lemma_le_u32_bytes(a, b, 128);
    crate::bits::lemma_le_u32_bytes(a, b, 132);
    crate::bits::lemma_le_u32_bytes(a, b, 136);
    crate::bits::lemma_le_u32_bytes(a, b, 144);
    crate::bits::lemma_le_u32_bytes(a, b, 148);
    crate::bits::lemma_le_u32_bytes(a, b, 152);
    crate::bits::lemma_le_u32_bytes(a, b, 156);
    crate::bits::lemma_le_u32_bytes(a, b, 192);
    crate::bits::lemma_le_u32_bytes(a, b, 196);
    crate::bits::lemma_le_u32_bytes(a, b, 200);
    crate::bits::lemma_le_u32_bytes(a, b, 204);
    crate::bits::lemma_le_u32_bytes(a, b, 208);
    crate::bits::lemma_le_u32_bytes(a, b, 212);
    crate::bits::lemma_le_u32_bytes(a, b, 216);
    crate::bits::lemma_le_u32_bytes(a, b, 224);
    crate::bits::lemma_le_u32_bytes(a, b, 228);
    crate::bits::lemma_le_u32_bytes(a, b, 232);
    crate::bits::lemma_le_u64_bytes(a, b, 176);
    assert forall|i: int| 0 <= i < 256 implies #[trigger] a[i] == b[i] by {
        if 32 <= i < 36 {
            let k = i - 32;
            assert(a[32 + k] == v.flash.register(SAVED_FLASH_REGS@[k]));
            assert(b[32 + k] == v.flash.register(SAVED_FLASH_REGS@[k]));
        } else if 184 <= i < 192 {
            let r = i - 184;
            assert(a[184 + r] == row_bits(v.key_state, r, 8));
            assert(b[184 + r] == row_bits(v.key_state, r, 8));
        }
    }
    assert(a =~= b);
}

/// Loading a snapshot reproduces it: restoring the bytes saved from a state
/// into any state of the same device type gives a state that saves the same
/// bytes again. The saved state is one the port writes lead to: its control
/// ports settled and its map select within its four writable bits; and its
/// flash unlock byte holds no bit but 0 and 2. A saved flash-ready bit (bit
/// 3) is not brought back: the flash unlock port is written back, and a
/// write to it only keeps or clears that bit.
#[verifier::spinoff_prover]
#[verifier::rlimit(60)]
pub proof fn lemma_snapshot_reproduced(
    p: PeripheralsView,
    q: PeripheralsView,
    b: Seq<u8>,
    keys: [[bool; 8]; 8],
    b2: Seq<u8>,
)
    requires
        p.wf(),
        p.control.settled(),
        p.control.flash_unlock & 0xFA == 0,
        p.flash.map_select & 0x0F == p.flash.map_select,
        q.control.device_type == p.control.device_type,
        snapshot_of(b, p),
        keys_loaded(keys, b),
        snapshot_of(b2, PeripheralsView { key_state: keys, ..q.restored(b) }),
    ensures
        b2 == b,
{
    let r = PeripheralsView { key_state: keys, ..q.restored(b) };
    lemma_snapshot_restores(p, q, b, keys);
    lemma_ports_reproduced(q.control, p.control, b);
    lemma_flash_reproduced(q.flash, p.flash, b);
    assert(r.lcd.imsc == p.lcd.imsc && r.lcd.ris == p.lcd.ris && r.lcd.compare == p.lcd.compare);
    assert(r.interrupt.banks[0] == p.interrupt.banks[0] && r.interrupt.banks[1]
        == p.interrupt.banks[1]);
    assert(timer_part(b, r, 0) && timer_part(b, r, 1) && timer_part(b, r, 2));
    assert(ports_part(b, r));
    assert(interrupt_part(b, r));
    assert(lcd_os_part(b, r));
    assert(keys_part(b, r));
    assert(dma_part(b, r));
    lemma_snapshot_unique(b, b2, r);
}

} // verus!
