//! Keypad controller.
//!
//! Memory-mapped at 0xF50000 (port offset 0x150000 from 0xE00000). The keypad
//! is an 8x8 matrix scanned row by row; column data lands in data registers.
//!
//! Register layout (packed 32-bit registers, byte addressing):
//! - index 0x00: control = mode[1:0] | rowWait[15:2] | scanWait[31:16]
//! - index 0x01: size = rows[7:0] | cols[15:8] | mask[31:16]
//! - index 0x02: status (reads status & enable; writes clear bits)
//! - index 0x03: enable (writes masked to 0x07)
//! - index 0x04-0x0B: data[0..15] (16 rows x 2 bytes)
//! - index 0x10: GPIO enable
//!
//! Status bits: 0x01 scan done, 0x02 data changed, 0x04 any key pressed.
use vstd::prelude::*;
use crate::bits::{byte_at, lane, lane_of, get_byte, put_byte, with_byte};

verus! {

/// Number of physical keypad rows.
pub const KEYPAD_ROWS: usize = 8;

/// Number of physical keypad columns.
pub const KEYPAD_COLS: usize = 8;

/// Rows covered by the data registers.
pub const KEYPAD_MAX_ROWS: usize = 16;

pub const SCAN_DONE: u8 = 0x01;

pub const DATA_CHANGED: u8 = 0x02;

pub const ANY_KEY: u8 = 0x04;

/// Scan modes: idle, single (any-key), continuous, multi-group (repeating).
pub const MODE_IDLE: u8 = 0;

pub const MODE_SINGLE: u8 = 1;

pub const MODE_CONTINUOUS: u8 = 2;

pub const MODE_MULTI_GROUP: u8 = 3;

/// Keypad controller.
#[derive(Debug, Clone)]
pub struct KeypadController {
    /// Packed control register.
    pub control: u32,
    /// Packed size register.
    pub size: u32,
    /// Status register.
    pub status: u8,
    /// Interrupt enable (masked to 0x07 on writes).
    pub enable: u8,
    /// Row the scan reaches next.
    pub scan_row: u8,
    /// Data registers (16 rows x 16 bits).
    pub data: [u16; 16],
    pub gpio_enable: u32,
    /// Whether a scan is in progress.
    pub scanning: bool,
    /// Cycles until the next row scan or scan completion.
    pub scan_cycles_remaining: u32,
    /// Data of the previous completed scan.
    pub prev_scan_data: [u16; 16],
    /// A key was seen during the current scan.
    pub any_key_in_scan: bool,
    /// Data changed during the current scan.
    pub data_changed_in_scan: bool,
    /// Set by register writes after which an any-key check must run.
    pub needs_any_key_check: bool,
    /// Key press edge flags, one byte per row (bit c = column c): set on press,
    /// kept through release, cleared when the row is queried.
    pub key_edge_flags: [u8; 8],
}

/// The abstract state of a keypad controller.
#[verifier::ext_equal]
pub struct KeypadState {
    pub control: u32,
    pub size: u32,
    pub status: u8,
    pub enable: u8,
    pub scan_row: u8,
    pub data: Seq<u16>,
    pub gpio_enable: u32,
    pub scanning: bool,
    pub scan_cycles_remaining: u32,
    pub prev_scan_data: Seq<u16>,
    pub any_key_in_scan: bool,
    pub data_changed_in_scan: bool,
    pub needs_any_key_check: bool,
    pub edges: Seq<u8>,
}

impl View for KeypadController {
    type V = KeypadState;

    open spec fn view(&self) -> KeypadState {
        KeypadState {
            control: self.control,
            size: self.size,
            status: self.status,
            enable: self.enable,
            scan_row: self.scan_row,
            data: self.data@,
            gpio_enable: self.gpio_enable,
            scanning: self.scanning,
            scan_cycles_remaining: self.scan_cycles_remaining,
            prev_scan_data: self.prev_scan_data@,
            any_key_in_scan: self.any_key_in_scan,
            data_changed_in_scan: self.data_changed_in_scan,
            needs_any_key_check: self.needs_any_key_check,
            edges: self.key_edge_flags@,
        }
    }
}

/// Whether key (row, col) is pressed in a key matrix; the ON key (row 2,
/// column 0) is handled elsewhere and never counts.
pub open spec fn pressed(keys: [[bool; 8]; 8], row: int, col: int) -> bool {
    !(row == 2 && col == 0) && keys[row][col]
}

/// Some key other than ON is pressed.
pub open spec fn any_pressed(keys: [[bool; 8]; 8]) -> bool {
    exists|r: int, c: int| 0 <= r < 8 && 0 <= c < 8 && #[trigger] pressed(keys, r, c)
}

/// Bit `col` of a row query: set when the key is held or its edge flag is set.
pub open spec fn key_bit(keys: [[bool; 8]; 8], edge: u8, row: int, col: int) -> u16 {
    if !(row == 2 && col == 0) && (keys[row][col] || (edge >> (col as u8)) & 1 == 1) {
        1u16 << (col as u16)
    } else {
        0u16
    }
}

/// Query bits for the first `n` columns of a row.
pub open spec fn row_bits(keys: [[bool; 8]; 8], edge: u8, row: int, n: int) -> u16
    decreases n,
{
    if n <= 0 {
        0u16
    } else {
        row_bits(keys, edge, row, n - 1) | key_bit(keys, edge, row, n - 1)
    }
}

impl KeypadState {
    pub open spec fn mode(self) -> u8 {
        (self.control & 3) as u8
    }

    pub open spec fn row_wait(self) -> u32 {
        (self.control >> 2u32) & 0x3FFF
    }

    pub open spec fn scan_wait(self) -> u32 {
        (self.control >> 16u32) & 0xFFFF
    }

    pub open spec fn rows(self) -> u8 {
        (self.size & 0xFF) as u8
    }

    pub open spec fn cols(self) -> u8 {
        ((self.size >> 8u32) & 0xFF) as u8
    }

    pub open spec fn mask(self) -> u16 {
        ((self.size >> 16u32) & 0xFFFF) as u16
    }

    /// Rows covered by register iteration.
    pub open spec fn row_limit(self) -> int {
        if self.rows() >= 16 {
            16
        } else {
            self.rows() as int
        }
    }

    /// Rows that exist physically.
    pub open spec fn actual_row_limit(self) -> int {
        if self.rows() >= 8 {
            8
        } else {
            self.rows() as int
        }
    }

    /// Column mask for the configured column count (at most 8 columns).
    pub open spec fn data_mask(self) -> u16 {
        if self.cols() >= 8 {
            0xFF
        } else {
            ((1u16 << (self.cols() as u16)) - 1) as u16
        }
    }

    pub open spec fn interrupt(self) -> bool {
        self.status & self.enable != 0
    }

    /// Whether row `row` is enabled in the row mask.
    pub open spec fn mask_has(self, row: int) -> bool {
        self.mask() & (1u16 << (row as u16)) != 0
    }

    /// Query the masked physical rows among the first `n`, OR-ing their bits.
    pub open spec fn gather(self, keys: [[bool; 8]; 8], n: int) -> (Self, u16)
        decreases n,
    {
        if n <= 0 {
            (self, 0u16)
        } else {
            let (s, a) = self.gather(keys, n - 1);
            if s.mask_has(n - 1) {
                let (q, b) = s.query(keys, n - 1);
                (q, a | b)
            } else {
                (s, a)
            }
        }
    }

    /// Store `any` into every masked data row among the first `n`, flagging a change.
    pub open spec fn store(self, any: u16, n: int) -> Self
        decreases n,
    {
        if n <= 0 {
            self
        } else {
            let s = self.store(any, n - 1);
            if s.mask_has(n - 1) {
                KeypadState {
                    status: if s.data[n - 1] != any {
                        s.status | DATA_CHANGED
                    } else {
                        s.status
                    },
                    data: s.data.update(n - 1, any),
                    ..s
                }
            } else {
                s
            }
        }
    }

    /// The any-key check: only in mode 1, the OR of all masked physical rows
    /// (limited to the configured columns) goes into every masked data row.
    pub open spec fn any_checked(self, keys: [[bool; 8]; 8]) -> (Self, bool) {
        if self.mode() != MODE_SINGLE {
            (self, false)
        } else {
            let (g, a) = self.gather(keys, self.actual_row_limit());
            let any = a & self.data_mask();
            let s = g.store(any, self.row_limit());
            let s2 = if any != 0 {
                KeypadState { status: s.status | ANY_KEY, ..s }
            } else {
                s
            };
            (s2, s2.interrupt())
        }
    }

    /// The state after a key changes: a press sets the edge flag, the data bit
    /// and the data-changed and any-key status bits; a release clears the data
    /// bit. The ON key and out-of-range keys are ignored.
    pub open spec fn key_set(self, row: int, col: int, is_pressed: bool) -> Self {
        if 0 <= row < 8 && 0 <= col < 8 && !(row == 2 && col == 0) {
            if is_pressed {
                KeypadState {
                    edges: self.edges.update(row, self.edges[row] | (1u8 << (col as u8))),
                    data: self.data.update(row, self.data[row] | (1u16 << (col as u16))),
                    status: self.status | DATA_CHANGED | ANY_KEY,
                    ..self
                }
            } else {
                KeypadState {
                    data: self.data.update(row, self.data[row] & !(1u16 << (col as u16))),
                    ..self
                }
            }
        } else {
            self
        }
    }

    /// The state after starting a scan.
    pub open spec fn started(self) -> Self {
        KeypadState {
            scan_row: 0,
            scanning: true,
            scan_cycles_remaining: self.row_wait(),
            any_key_in_scan: false,
            data_changed_in_scan: false,
            ..self
        }
    }

    /// The byte a register read returns.
    pub open spec fn register_byte(self, addr: u32) -> u8 {
        let index = (addr >> 2u32) & 0x7F;
        let sh = lane(addr);
        if index == 0 {
            byte_at(self.control, sh)
        } else if index == 1 {
            byte_at(self.size, sh)
        } else if index == 2 {
            byte_at((self.status & self.enable) as u32, sh)
        } else if index == 3 {
            byte_at(self.enable as u32, sh)
        } else if 4 <= index <= 0x0B {
            let i = ((vstd::wrapping::u32_specs::wrapping_sub(addr, 0x10) >> 1u32) & 0x0F) as int;
            ((self.data[i] >> ((addr & 1) * 8) as u16) & 0xFF) as u8
        } else if index == 0x10 {
            byte_at(self.gpio_enable, sh)
        } else {
            0
        }
    }

    /// The state after a register byte write.
    pub open spec fn written(self, addr: u32, value: u8) -> Self {
        let index = (addr >> 2u32) & 0x7F;
        let sh = lane(addr);
        if index == 0 {
            let s = KeypadState { control: with_byte(self.control, sh, value), ..self };
            if s.mode() & 2 != 0 {
                s.started()
            } else {
                KeypadState { scanning: false, needs_any_key_check: true, ..s }
            }
        } else if index == 1 {
            KeypadState {
                size: with_byte(self.size, sh, value),
                needs_any_key_check: true,
                ..self
            }
        } else if index == 2 {
            KeypadState {
                status: if sh == 0 {
                    self.status & !value
                } else {
                    self.status
                },
                needs_any_key_check: true,
                ..self
            }
        } else if index == 3 {
            if sh == 0 {
                KeypadState { enable: value & 7, ..self }
            } else {
                self
            }
        } else if index == 0x10 {
            KeypadState { gpio_enable: with_byte(self.gpio_enable, sh, value), ..self }
        } else {
            self
        }
    }

    /// The power-on state (rows 8, columns 8, mask 0xFFFF, all else clear).
    pub open spec fn initial() -> Self {
        KeypadState {
            control: 0,
            size: 8u32 | (8u32 << 8u32) | (0xFFFFu32 << 16u32),
            status: 0,
            enable: 0,
            scan_row: 0,
            data: Seq::new(16, |i: int| 0u16),
            gpio_enable: 0,
            scanning: false,
            scan_cycles_remaining: 0,
            prev_scan_data: Seq::new(16, |i: int| 0u16),
            any_key_in_scan: false,
            data_changed_in_scan: false,
            needs_any_key_check: false,
            edges: Seq::new(8, |i: int| 0u8),
        }
    }

    /// Whether the abstract state has the shape of a controller.
    pub open spec fn wf(self) -> bool {
        &&& self.data.len() == 16
        &&& self.prev_scan_data.len() == 16
        &&& self.edges.len() == 8
        &&& (self.scanning ==> self.scan_row < 255)
    }

    /// Query a physical row: the key bits, and the state with the row's edge
    /// flags cleared (except the ON key's).
    pub open spec fn query(self, keys: [[bool; 8]; 8], row: int) -> (Self, u16) {
        let edge = self.edges[row];
        (
            KeypadState {
                edges: self.edges.update(row, if row == 2 { edge & 1 } else { 0u8 }),
                ..self
            },
            row_bits(keys, edge, row, 8),
        )
    }

    /// The state after a scan completes.
    pub open spec fn finished(self) -> Self {
        let st1 = self.status | SCAN_DONE;
        let st2 = if self.data_changed_in_scan {
            st1 | DATA_CHANGED
        } else {
            st1
        };
        let st = if self.any_key_in_scan {
            st2 | ANY_KEY
        } else {
            st2
        };
        let s = KeypadState { status: st, prev_scan_data: self.data, ..self };
        if self.mode() & 1 != 0 {
            KeypadState {
                scan_row: 0,
                scan_cycles_remaining: (2 + self.scan_wait() + self.row_wait()) as u32,
                any_key_in_scan: false,
                data_changed_in_scan: false,
                ..s
            }
        } else {
            KeypadState { control: self.control & !3u32, scanning: false, ..s }
        }
    }

    /// Scan the current row once its wait has elapsed; returns the new state
    /// and whether a completed scan leaves an enabled status bit.
    pub open spec fn row_event(self, keys: [[bool; 8]; 8]) -> (Self, bool) {
        let row = self.scan_row as int;
        let s = if row < self.row_limit() {
            let (q, bits) = if row < 8 {
                self.query(keys, row)
            } else {
                (self, 0u16)
            };
            let rd = bits & self.data_mask();
            KeypadState {
                status: if q.data[row] != rd {
                    q.status | DATA_CHANGED
                } else {
                    q.status
                },
                data: q.data.update(row, rd),
                any_key_in_scan: q.any_key_in_scan || rd != 0,
                data_changed_in_scan: q.data_changed_in_scan || rd != q.prev_scan_data[row],
                ..q
            }
        } else {
            self
        };
        let s2 = KeypadState { scan_row: (self.scan_row + 1) as u8, ..s };
        if s2.scan_row < s2.rows() {
            (KeypadState { scan_cycles_remaining: s2.row_wait(), ..s2 }, false)
        } else {
            let f = s2.finished();
            (f, f.interrupt())
        }
    }

    /// Run the scan for `cycles` CPU cycles; returns the new state and whether
    /// any completed scan left an enabled status bit.
    pub open spec fn run(self, cycles: u32, keys: [[bool; 8]; 8]) -> (Self, bool)
        decreases cycles, (if self.scan_cycles_remaining == 0 {
            1int
        } else {
            0int
        }), 255 - self.scan_row,
    {
        if cycles == 0 || !self.scanning || self.scan_row >= 255 {
            (self, false)
        } else if cycles >= self.scan_cycles_remaining {
            proof {
                lemma_row_event_progress(KeypadState { scan_cycles_remaining: 0, ..self }, keys);
            }
            let (s1, irq1) = KeypadState { scan_cycles_remaining: 0, ..self }.row_event(keys);
            let (s2, irq2) = s1.run((cycles - self.scan_cycles_remaining) as u32, keys);
            (s2, irq1 || irq2)
        } else {
            (
                KeypadState {
                    scan_cycles_remaining: (self.scan_cycles_remaining - cycles) as u32,
                    ..self
                },
                false,
            )
        }
    }
}

impl KeypadController {
    /// Create a keypad controller: idle, 8 rows, 8 columns, all rows masked in.
    pub fn new() -> (r: Self)
        ensures
            r@ == KeypadState::initial(),
    {
        let r = KeypadController {
            control: 0,
            size: Self::pack_size(8, 8, 0xFFFF),
            status: 0,
            enable: 0,
            scan_row: 0,
            data: [0u16; 16],
            gpio_enable: 0,
            scanning: false,
            scan_cycles_remaining: 0,
            prev_scan_data: [0u16; 16],
            any_key_in_scan: false,
            data_changed_in_scan: false,
            needs_any_key_check: false,
            key_edge_flags: [0u8; 8],
        };
        assert(r.data@ =~= Seq::new(16, |i: int| 0u16));
        assert(r.prev_scan_data@ =~= Seq::new(16, |i: int| 0u16));
        assert(r.key_edge_flags@ =~= Seq::new(8, |i: int| 0u8));
        assert(r@ =~= KeypadState::initial());
        r
    }

    /// Reset to the power-on state.
    pub fn reset(&mut self)
        ensures
            final(self)@ == KeypadState::initial(),
    {
        *self = Self::new();
    }

    /// Scan mode (bits 1:0 of control).
    pub fn mode(&self) -> (r: u8)
        ensures
            r == self@.mode(),
            r <= 3,
    {
        let c = self.control;
proof {
            crate::bits::lemma_mask_facts();
        }
        (self.control & 0x03) as u8
    }

    /// Set the scan mode (bits 1:0 of control).
    pub fn set_mode(&mut self, m: u8)
        ensures
            final(self)@ == (KeypadState {
                control: (old(self).control & !3u32) | ((m as u32) & 3),
                ..old(self)@
            }),
    {
        self.control = (self.control & !3u32) | ((m as u32) & 0x03);
    }

    /// Row wait cycles (bits 15:2 of control).
    pub fn row_wait(&self) -> (r: u32)
        ensures
            r == self@.row_wait(),
            r <= 0x3FFF,
    {
        let c = self.control;
proof {
            crate::bits::lemma_mask_facts();
        }
        (self.control >> 2) & 0x3FFF
    }

    /// Scan wait cycles (bits 31:16 of control).
    pub fn scan_wait(&self) -> (r: u32)
        ensures
            r == self@.scan_wait(),
            r <= 0xFFFF,
    {
        let c = self.control;
proof {
            crate::bits::lemma_mask_facts();
        }
        (self.control >> 16) & 0xFFFF
    }

    /// Number of rows (bits 7:0 of size).
    pub fn rows(&self) -> (r: u8)
        ensures
            r == self@.rows(),
    {
        (self.size & 0xFF) as u8
    }

    /// Number of columns (bits 15:8 of size).
    pub fn cols(&self) -> (r: u8)
        ensures
            r == self@.cols(),
    {
        ((self.size >> 8) & 0xFF) as u8
    }

    /// Row mask (bits 31:16 of size).
    pub fn mask(&self) -> (r: u16)
        ensures
            r == self@.mask(),
    {
        ((self.size >> 16) & 0xFFFF) as u16
    }

    /// Pack the size register from its fields.
    pub fn pack_size(rows: u8, cols: u8, mask: u16) -> (r: u32)
        ensures
            r == (rows as u32) | ((cols as u32) << 8u32) | ((mask as u32) << 16u32),
            r & 0xFF == rows as u32,
            (r >> 8u32) & 0xFF == cols as u32,
            (r >> 16u32) & 0xFFFF == mask as u32,
    {
        let r = (rows as u32) | ((cols as u32) << 8u32) | ((mask as u32) << 16u32);
        let (a, b, c) = (rows as u32, cols as u32, mask as u32);
        assert(((a | (b << 8u32) | (c << 16u32)) & 0xFF == a) && (((a | (b << 8u32) | (c
            << 16u32)) >> 8u32) & 0xFF == b) && (((a | (b << 8u32) | (c << 16u32)) >> 16u32)
            & 0xFFFF == c)) by (bit_vector)
            requires
                a <= 0xFF,
                b <= 0xFF,
                c <= 0xFFFF,
        ;
        r
    }

    /// Record a key change: a press sets the key's edge flag and its data bit
    /// (so it is visible whatever the mode) and the data-changed and any-key
    /// status bits; a release clears the data bit but keeps the edge flag.
    /// The ON key (row 2, column 0) and out-of-range keys are ignored.
    pub fn set_key_edge(&mut self, row: usize, col: usize, pressed: bool)
        ensures
            final(self)@ == old(self)@.key_set(row as int, col as int, pressed),
    {
        if row < KEYPAD_ROWS && col < KEYPAD_COLS {
            if row == 2 && col == 0 {
                return;
            }
            if pressed {
                self.key_edge_flags[row] = self.key_edge_flags[row] | (1u8 << (col as u8));
                self.data[row] = self.data[row] | (1u16 << (col as u16));
                self.status = self.status | DATA_CHANGED | ANY_KEY;
            } else {
                self.data[row] = self.data[row] & !(1u16 << (col as u16));
            }
            assert(self@ =~= old(self)@.key_set(row as int, col as int, pressed));
        }
    }

    /// Start a scan cycle at row 0.
    pub fn start_scan(&mut self)
        ensures
            final(self)@ == old(self)@.started(),
    {
        self.scan_row = 0;
        self.scanning = true;
        self.scan_cycles_remaining = self.row_wait();
        self.any_key_in_scan = false;
        self.data_changed_in_scan = false;
    }

    /// Complete a scan: set the scan-done bit (and the data-changed and
    /// any-key bits seen during the scan), save the data for comparison, then
    /// restart (modes with bit 0 set) or go idle.
    pub fn finish_scan(&mut self)
        ensures
            final(self)@ == old(self)@.finished(),
    {
        self.status = self.status | SCAN_DONE;
        if self.data_changed_in_scan {
            self.status = self.status | DATA_CHANGED;
        }
        if self.any_key_in_scan {
            self.status = self.status | ANY_KEY;
        }
        self.prev_scan_data = self.data;
        if self.mode() & 1 != 0 {
            self.scan_row = 0;
            self.scan_cycles_remaining = 2 + self.scan_wait() + self.row_wait();
            self.any_key_in_scan = false;
            self.data_changed_in_scan = false;
        } else {
            self.control = self.control & !3u32;
            self.scanning = false;
        }
        assert(self@ =~= old(self)@.finished());
    }

    /// Rows covered by register iteration (at most 16).
    pub fn row_limit(&self) -> (r: usize)
        ensures
            r == self@.row_limit(),
    {
        let r = self.rows() as usize;
        if r >= KEYPAD_MAX_ROWS {
            KEYPAD_MAX_ROWS
        } else {
            r
        }
    }

    /// Physical rows (at most 8).
    pub fn actual_row_limit(&self) -> (r: usize)
        ensures
            r == self@.actual_row_limit(),
    {
        let r = self.rows() as usize;
        if r >= KEYPAD_ROWS {
            KEYPAD_ROWS
        } else {
            r
        }
    }

    /// Column mask for the configured column count (at most 8 columns).
    pub fn data_mask(&self) -> (r: u16)
        ensures
            r == self@.data_mask(),
    {
        let cols = self.cols();
        if cols >= 8 {
            0xFF
        } else {
            assert((1u16 << (cols as u16)) >= 1) by (bit_vector)
                requires
                    cols < 8,
            ;
            (1u16 << (cols as u16)) - 1
        }
    }

    /// Query a physical row (destructive): the bits of keys held or with an
    /// edge flag, excluding the ON key; the row's edge flags are then cleared
    /// (except the ON key's).
    pub fn query_row_data(&mut self, row: usize, key_state: &[[bool; 8]; 8]) -> (r: u16)
        requires
            row < 8,
        ensures
            (final(self)@, r) == old(self)@.query(*key_state, row as int),
    {
        let edge = self.key_edge_flags[row];
        let mut result: u16 = 0;
        let mut col: usize = 0;
        while col < KEYPAD_COLS
            invariant
                col <= 8,
                row < 8,
                result == row_bits(*key_state, edge, row as int, col as int),
            decreases 8 - col,
        {
            if !(row == 2 && col == 0) && (key_state[row][col] || (edge >> (col as u8)) & 1 == 1) {
                result = result | (1u16 << (col as u16));
            } else {
                proof {
                    crate::bits::lemma_mask_facts();
                    assert(result | 0u16 == result);
                }
            }
            col = col + 1;
        }
        self.key_edge_flags[row] = if row == 2 {
            edge & 1
        } else {
            0
        };
        assert(self@ =~= old(self)@.query(*key_state, row as int).0);
        result
    }

    /// Scan the current row once its wait has elapsed.
    fn row_event(&mut self, key_state: &[[bool; 8]; 8]) -> (r: bool)
        requires
            old(self)@.wf(),
            old(self).scan_row < 255,
        ensures
            (final(self)@, r) == old(self)@.row_event(*key_state),
    {
        let row = self.scan_row as usize;
        let row_limit = self.row_limit();
        if row < row_limit {
            let mask = self.data_mask();
            let mut bits: u16 = 0;
            if row < KEYPAD_ROWS {
                bits = self.query_row_data(row, key_state);
            }
            let row_data = bits & mask;
            if self.data[row] != row_data {
                self.status = self.status | DATA_CHANGED;
            }
            self.data[row] = row_data;
            if row_data != 0 {
                self.any_key_in_scan = true;
            }
            if row_data != self.prev_scan_data[row] {
                self.data_changed_in_scan = true;
            }
        }
        self.scan_row = self.scan_row + 1;
        if (self.scan_row as usize) < self.rows() as usize {
            self.scan_cycles_remaining = self.row_wait();
            assert(self@ =~= old(self)@.row_event(*key_state).0);
            false
        } else {
            self.finish_scan();
            assert(self@ =~= old(self)@.row_event(*key_state).0);
            (self.status & self.enable) != 0
        }
    }

    /// Advance the scan by `cycles` CPU cycles. Returns whether a scan that
    /// completed meanwhile left an enabled status bit.
    pub fn tick(&mut self, cycles: u32, key_state: &[[bool; 8]; 8]) -> (r: bool)
        requires
            old(self)@.wf(),
        ensures
            (final(self)@, r) == old(self)@.run(cycles, *key_state),
            final(self)@.wf(),
    {
        if !self.scanning {
            return false;
        }
        let mut cycles_left = cycles;
        let mut interrupt_pending = false;
        while cycles_left > 0 && self.scanning
            invariant
                self@.wf(),
                self@.run(cycles_left, *key_state).0 == old(self)@.run(cycles, *key_state).0,
                (interrupt_pending || self@.run(cycles_left, *key_state).1) == old(self)@.run(
                    cycles,
                    *key_state,
                ).1,
            decreases cycles_left, (if self.scan_cycles_remaining == 0 {
                1int
            } else {
                0int
            }), 255 - self.scan_row,
        {
            if cycles_left >= self.scan_cycles_remaining {
                proof {
                    lemma_row_event_progress(
                        KeypadState { scan_cycles_remaining: 0, ..self@ },
                        *key_state,
                    );
                }
                let ghost pre = self@;
                cycles_left = cycles_left - self.scan_cycles_remaining;
                self.scan_cycles_remaining = 0;
                assert(self@ =~= KeypadState { scan_cycles_remaining: 0, ..pre });
                let irq = self.row_event(key_state);
                if irq {
                    interrupt_pending = true;
                }
            } else {
                self.scan_cycles_remaining = self.scan_cycles_remaining - cycles_left;
                cycles_left = 0;
            }
        }
        interrupt_pending
    }

    /// Whether the keypad interrupt should fire from the key state: in mode 1
    /// (any-key) or mode 2 (continuous), when any key other than ON is held.
    pub fn check_interrupt(&self, key_state: &[[bool; 8]; 8]) -> (r: bool)
        ensures
            r == ((self@.mode() == MODE_SINGLE || self@.mode() == MODE_CONTINUOUS) && any_pressed(
                *key_state,
            )),
    {
        let m = self.mode();
        if m != MODE_SINGLE && m != MODE_CONTINUOUS {
            return false;
        }
        let mut row: usize = 0;
        while row < KEYPAD_ROWS
            invariant
                row <= 8,
                m == self@.mode(),
                m == MODE_SINGLE || m == MODE_CONTINUOUS,
                forall|r: int, c: int| 0 <= r < row && 0 <= c < 8 ==> !pressed(*key_state, r, c),
            decreases 8 - row,
        {
            let mut col: usize = 0;
            while col < KEYPAD_COLS
                invariant
                    row < 8,
                    col <= 8,
                    m == self@.mode(),
                    m == MODE_SINGLE || m == MODE_CONTINUOUS,
                    forall|r: int, c: int| 0 <= r < row && 0 <= c < 8 ==> !pressed(*key_state, r, c),
                    forall|c: int| 0 <= c < col ==> !pressed(*key_state, row as int, c),
                decreases 8 - col,
            {
                if !(row == 2 && col == 0) && key_state[row][col] {
                    assert(pressed(*key_state, row as int, col as int));
                    assert(any_pressed(*key_state));
                    return true;
                }
                col = col + 1;
            }
            row = row + 1;
        }
        false
    }

    /// Read a register byte; addresses from 0x48 up read 0. Reads have no
    /// side effects.
    pub fn read(&mut self, addr: u32, _key_state: &[[bool; 8]; 8]) -> (r: u8)
        ensures
            r == (if addr >= 0x48 {
                0u8
            } else {
                old(self)@.register_byte(addr)
            }),
            *final(self) == *old(self),
    {
        if addr >= 0x48 {
            return 0;
        }
        self.peek(addr, _key_state)
    }

    /// Read a register byte without side effects.
    pub fn peek(&self, addr: u32, _key_state: &[[bool; 8]; 8]) -> (r: u8)
        ensures
            r == self@.register_byte(addr),
    {
        let index = (addr >> 2) & 0x7F;
        let bit_offset = lane_of(addr);
        if index == 0 {
            get_byte(self.control, bit_offset)
        } else if index == 1 {
            get_byte(self.size, bit_offset)
        } else if index == 2 {
            get_byte((self.status & self.enable) as u32, bit_offset)
        } else if index == 3 {
            get_byte(self.enable as u32, bit_offset)
        } else if 4 <= index && index <= 0x0B {
            let data_idx = (addr.wrapping_sub(0x10) >> 1) & 0x0F;
            let a = addr;
            proof {
                crate::bits::lemma_mask_facts();
            }
            assert(((vstd::wrapping::u32_specs::wrapping_sub(a, 0x10) >> 1u32) & 0x0F) < 16);
            assert((a & 1) * 8 <= 8);
            let byte_sel = ((addr & 1) * 8) as u16;
            ((self.data[data_idx as usize] >> byte_sel) & 0xFF) as u8
        } else if index == 0x10 {
            get_byte(self.gpio_enable, bit_offset)
        } else {
            0
        }
    }

    /// Write a register byte. A control write starts scanning in modes 2 and 3
    /// and otherwise stops it; control, size and status writes request an
    /// any-key check.
    pub fn write(&mut self, addr: u32, value: u8)
        ensures
            final(self)@ == old(self)@.written(addr, value),
    {
        let index = (addr >> 2) & 0x7F;
        let bit_offset = lane_of(addr);
        if index == 0 {
            self.control = put_byte(self.control, bit_offset, value);
            if self.mode() & 2 != 0 {
                self.start_scan();
            } else {
                self.scanning = false;
                self.needs_any_key_check = true;
            }
        } else if index == 1 {
            self.size = put_byte(self.size, bit_offset, value);
            self.needs_any_key_check = true;
        } else if index == 2 {
            if bit_offset == 0 {
                self.status = self.status & !value;
            }
            self.needs_any_key_check = true;
        } else if index == 3 {
            if bit_offset == 0 {
                self.enable = value & 0x07;
            }
        } else if index == 0x10 {
            self.gpio_enable = put_byte(self.gpio_enable, bit_offset, value);
        }
        assert(self@ =~= old(self)@.written(addr, value));
    }

    /// Whether a scan is in progress.
    pub fn is_scanning(&self) -> (r: bool)
        ensures
            r == self.scanning,
    {
        self.scanning
    }

    /// The status register (not masked by enable).
    pub fn status(&self) -> (r: u8)
        ensures
            r == self.status,
    {
        self.status
    }

    /// The any-key check: only in mode 1, query every masked physical row
    /// (consuming edge flags), OR the results, limit them to the configured
    /// columns, and store that value in every masked data row; set the
    /// any-key status bit when a key was seen. Returns whether an enabled
    /// status bit is set.
    pub fn any_key_check(&mut self, key_state: &[[bool; 8]; 8]) -> (r: bool)
        requires
            old(self)@.wf(),
        ensures
            (final(self)@, r) == old(self)@.any_checked(*key_state),
            final(self)@.wf(),
    {
        if self.mode() != MODE_SINGLE {
            return false;
        }
        let mut any: u16 = 0;
        let row_limit = self.actual_row_limit();
        let mask = self.mask();
        let ghost start = self@;
        let mut row: usize = 0;
        while row < row_limit
            invariant
                row <= row_limit <= 8,
                row_limit == start.actual_row_limit(),
                mask == start.mask(),
                start.wf(),
                (self@, any) == start.gather(*key_state, row as int),
                self@.wf(),
                self.size == start.size,
                self.control == start.control,
            decreases row_limit - row,
        {
            if (mask & (1u16 << (row as u16))) != 0 {
                let b = self.query_row_data(row, key_state);
                any = any | b;
            }
            row = row + 1;
        }
        let data_mask = self.data_mask();
        any = any & data_mask;
        let ghost gathered = self@;
        let row_limit_full = self.row_limit();
        let mut row: usize = 0;
        while row < row_limit_full
            invariant
                row <= row_limit_full <= 16,
                row_limit_full == start.row_limit(),
                mask == start.mask(),
                gathered.wf(),
                gathered.size == start.size,
                self@ == gathered.store(any, row as int),
                self@.wf(),
                self.size == start.size,
            decreases row_limit_full - row,
        {
            if (mask & (1u16 << (row as u16))) != 0 {
                if self.data[row] != any {
                    self.status = self.status | DATA_CHANGED;
                }
                self.data[row] = any;
                assert(self@ =~= gathered.store(any, row as int + 1));
            }
            row = row + 1;
        }
        if any != 0 {
            self.status = self.status | ANY_KEY;
        }
        (self.status & self.enable) != 0
    }
}

impl Default for KeypadController {
    fn default() -> (r: Self)
        ensures
            r@ == KeypadState::initial(),
    {
        Self::new()
    }
}

/// A row with no key held and no pending edge has no query bits.
proof fn lemma_row_bits_empty(keys: [[bool; 8]; 8], row: int, n: int)
    requires
        0 <= row < 8,
        n <= 8,
        forall|c: int| 0 <= c < 8 ==> !keys[row][c],
    ensures
        row_bits(keys, 0u8, row, n) == 0,
    decreases n,
{
    if n > 0 {
        lemma_row_bits_empty(keys, row, n - 1);
        vstd::bits::lemma_u8_shr_is_div(0u8, (n - 1) as u8);
        vstd::arithmetic::power2::lemma_pow2_pos((n - 1) as nat);
        crate::bits::lemma_mask_facts();
        assert((0u8 >> ((n - 1) as u8)) == 0u8);
        assert(((0u8 >> ((n - 1) as u8)) & 1) != 1);
        assert(key_bit(keys, 0u8, row, n - 1) == 0u16);
    }
}

/// Scanning a row replaces its data register: once a scan processes row `r`
/// (below 8 and below the row limit), the register holds that row's query
/// bits (held keys and pending edges, the ON key aside) masked to the
/// configured columns, whatever it held before the scan; so a row whose
/// keys were all released, with no pending edge, reads 0.
pub proof fn lemma_scan_replaces_row(s: KeypadState, keys: [[bool; 8]; 8], old_row: u16)
    requires
        s.wf(),
        s.scan_row < 8,
        (s.scan_row as int) < s.row_limit(),
    ensures
        ({
            let r = s.scan_row as int;
            let t = s.row_event(keys).0;
            let other = KeypadState { data: s.data.update(r, old_row), ..s };
            &&& t.data[r] == row_bits(keys, s.edges[r], r, 8) & s.data_mask()
            &&& other.row_event(keys).0.data[r] == t.data[r]
            &&& (forall|c: int| 0 <= c < 8 ==> !keys[r][c]) && s.edges[r] == 0 ==> t.data[r] == 0
        }),
{
    let r = s.scan_row as int;
    if (forall|c: int| 0 <= c < 8 ==> !keys[r][c]) && s.edges[r] == 0 {
        lemma_row_bits_empty(keys, r, 8);
        assert(0u16 & s.data_mask() == 0) by {
            crate::bits::lemma_mask_facts();
        }
    }
}

/// A row event either leaves cycles to wait for or moves the scan row on.
pub proof fn lemma_row_event_progress(s: KeypadState, keys: [[bool; 8]; 8])
    requires
        s.scan_row < 255,
    ensures
        s.row_event(keys).0.scan_cycles_remaining > 0 || s.row_event(keys).0.scan_row == s.scan_row
            + 1,
{
    let c = s.control;
    crate::bits::lemma_mask_facts();
    assert((c >> 16u32) & 0xFFFF <= 0xFFFF && (c >> 2u32) & 0x3FFF <= 0x3FFF);
}

/// Bit facts of the keypad registers: the data byte of row `r` (at
/// 0x10 + 2r) is an even address among the data registers that selects row
/// `r`; 0x0C is byte 0 of the enable register; setting or clearing bit `c`
/// of a data word shows in the low byte; and the data-changed and any-key
/// flags together are 0x06.
proof fn lemma_keypad_bits(r: u32, d: u16, c: u16, c8: u8, st: u8)
    by (bit_vector)
    requires
        r < 8,
        c < 8,
        c8 == c,
    ensures
        4 <= ((0x10 + 2 * r) as u32 >> 2u32) & 0x7F <= 0x0B,
        ((((0x10 + 2 * r) as u32 - 0x10) as u32) >> 1u32) & 0x0F == r,
        ((0x10 + 2 * r) as u32) & 1 == 0,
        (0x0Cu32 >> 2u32) & 0x7F == 3,
        0x0Cu32 & 3 == 0,
        ((((d | (1u16 << c)) >> 0u16) & 0xFF) as u8 >> c8) & 1 == 1,
        ((((d & !(1u16 << c)) >> 0u16) & 0xFF) as u8 >> c8) & 1 == 0,
        (st | DATA_CHANGED) | ANY_KEY == st | 0x06,
{
}

/// The effect of a key edge on what software sees: off the matrix, or on the
/// ON key (row 2, column 0), nothing changes; otherwise a press sets the
/// key's bit in its row's data register (read at 0x10 + 2 * row) and raises
/// the data-changed and any-key status flags, and a release clears that bit
/// and leaves the status alone.
pub proof fn lemma_key_edge(s: KeypadState, row: int, col: int, pressed: bool)
    requires
        s.wf(),
    ensures
        !(0 <= row < 8 && 0 <= col < 8) || (row == 2 && col == 0) ==> s.key_set(row, col, pressed)
            == s,
        0 <= row < 8 && 0 <= col < 8 && !(row == 2 && col == 0) ==> {
            let t = s.key_set(row, col, pressed);
            let a = (0x10 + 2 * row) as u32;
            &&& pressed ==> (t.register_byte(a) >> (col as u8)) & 1 == 1 && t.status == s.status
                | 0x06
            &&& !pressed ==> (t.register_byte(a) >> (col as u8)) & 1 == 0 && t.status == s.status
        },
{
    if 0 <= row < 8 && 0 <= col < 8 && !(row == 2 && col == 0) {
        let t = s.key_set(row, col, pressed);
        let a = (0x10 + 2 * row) as u32;
        assert(vstd::wrapping::u32_specs::wrapping_sub(a, 0x10) == (a - 0x10) as u32);
        let d = s.data[row];
        let c = col as u16;
        let c8 = col as u8;
        lemma_keypad_bits(row as u32, d, c, c8, s.status);
        assert((a & 1) * 8 == 0);
        let i = ((vstd::wrapping::u32_specs::wrapping_sub(a, 0x10) >> 1u32) & 0x0F) as int;
        assert(i == row);
        assert(t.register_byte(a) == ((t.data[row] >> 0u16) & 0xFF) as u8);
        if pressed {
            assert(t.data[row] == d | (1u16 << c));
        } else {
            assert(t.data[row] == d & !(1u16 << c));
        }
    }
}

/// The register effects of a write: to the control register, scanning
/// follows bit 1 of the new mode, and without it an any-key check is asked
/// for; to the size register, an any-key check is asked for; to byte 0 of
/// the status register, the written bits are cleared and an any-key check is
/// asked for; to byte 0 of the enable register, the enable register then
/// reads the written value's low three bits; to the data registers, nothing
/// changes.
pub proof fn lemma_write_registers(s: KeypadState, a: u32, v: u8)
    ensures
        ({
            let i = (a >> 2u32) & 0x7F;
            let t = s.written(a, v);
            &&& i == 0 ==> t.scanning == (t.mode() & 2 != 0) && (t.mode() & 2 == 0
                ==> t.needs_any_key_check)
            &&& i == 1 ==> t.needs_any_key_check
            &&& i == 2 && a & 3 == 0 ==> t.status == s.status & !v && t.needs_any_key_check
            &&& i == 3 && a & 3 == 0 ==> t.register_byte(0x0C) == v & 7
            &&& 4 <= i <= 0x0B ==> t == s
        }),
{
    lemma_keypad_bits(0, 0, 0, 0, 0);
    crate::bits::lemma_mask_facts();
    let e = v & 7;
    assert(e <= 7) by {
        assert((v & 7) <= 7);
    }
    assert(byte_at(e as u32, 0) == e);
}

/// A pressed key (other than ON) shows in its data row at once, whatever
/// the mode.
pub proof fn lemma_press_visible(s: KeypadState, row: int, col: int)
    requires
        s.wf(),
        0 <= row < 8,
        0 <= col < 8,
        !(row == 2 && col == 0),
    ensures
        (s.key_set(row, col, true).data[row] >> (col as u16)) & 1 == 1,
{
    let d = s.data[row];
    let c = col as u16;
    assert(((d | (1u16 << c)) >> c) & 1 == 1) by (bit_vector)
        requires
            c < 8,
    ;
}

/// A key pressed and released before any query keeps its edge flag, so the
/// next query of its row still reports it.
pub proof fn lemma_quick_press_not_lost(s: KeypadState, row: int, col: int, keys: [[bool; 8]; 8])
    requires
        s.wf(),
        0 <= row < 8,
        0 <= col < 8,
        !(row == 2 && col == 0),
    ensures
        (s.key_set(row, col, true).key_set(row, col, false).edges[row] >> (col as u8)) & 1 == 1,
        key_bit(keys, s.key_set(row, col, true).key_set(row, col, false).edges[row], row, col)
            == 1u16 << (col as u16),
{
    let e = s.edges[row];
    let c = col as u8;
    assert(((e | (1u8 << c)) >> c) & 1 == 1) by (bit_vector)
        requires
            c < 8,
    ;
}

/// Storing a value into the masked rows writes it into every masked row
/// below the limit and leaves the other rows alone.
pub proof fn lemma_store_rows(s: KeypadState, any: u16, n: int)
    requires
        s.wf(),
        0 <= n <= 16,
    ensures
        s.store(any, n).wf(),
        s.store(any, n).size == s.size,
        forall|j: int| 0 <= j < n && s.mask_has(j) ==> #[trigger] s.store(any, n).data[j] == any,
        forall|j: int| 0 <= j < 16 && !(0 <= j < n && s.mask_has(j)) ==> #[trigger] s.store(
            any,
            n,
        ).data[j] == s.data[j],
    decreases n,
{
    if n > 0 {
        lemma_store_rows(s, any, n - 1);
    }
}

/// In any-key mode, the any-key check leaves the same combined value in
/// every masked data row: a key seen in any row shows in all of them.
pub proof fn lemma_any_key_fills_rows(s: KeypadState, keys: [[bool; 8]; 8])
    requires
        s.wf(),
        s.mode() == MODE_SINGLE,
    ensures
        forall|i: int, j: int|
            0 <= i < s.row_limit() && 0 <= j < s.row_limit() && s.mask_has(i) && s.mask_has(j)
                ==> #[trigger] s.any_checked(keys).0.data[i] == #[trigger] s.any_checked(keys).0.data[j],
{
    let (g, a) = s.gather(keys, s.actual_row_limit());
    lemma_gather_shape(s, keys, s.actual_row_limit());
    let any = a & s.data_mask();
    lemma_store_rows(g, any, s.row_limit());
}

/// Gathering keeps the shape and the size register.
pub proof fn lemma_gather_shape(s: KeypadState, keys: [[bool; 8]; 8], n: int)
    requires
        s.wf(),
        0 <= n <= 8,
    ensures
        s.gather(keys, n).0.wf(),
        s.gather(keys, n).0.size == s.size,
        s.gather(keys, n).0.data == s.data,
    decreases n,
{
    if n > 0 {
        lemma_gather_shape(s, keys, n - 1);
    }
}

} // verus!
