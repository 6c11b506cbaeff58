//! LCD controller.
//!
//! Memory-mapped at 0xE30000 (port offset 0x030000 from 0xE00000). It manages
//! display timing and DMA from VRAM (320x240 16-bit pixels at 0xD40000).
//!
//! Register map: 0x000-0x00F timing, 0x010 UPBASE, 0x014 LPBASE, 0x018 control,
//! 0x01C IMSC, 0x020 RIS, 0x024 MIS (IMSC & RIS), 0x028 ICR (write to clear),
//! 0x02C UPCURR, 0x030 LPCURR, 0x200-0x3FF palette, 0x800-0xBFF cursor image,
//! 0xC00-0xC2F cursor registers, 0xFE0-0xFFF peripheral ID.
//!
//! DMA state machine: front porch -> sync -> LNBU -> back porch -> active video.
use vstd::prelude::*;
use crate::bits::{byte_at, lane, lane_of, get_byte, put_byte, with_byte, lemma_mask_facts};

verus! {

/// Display width in pixels.
pub const LCD_WIDTH: usize = 320;

/// Display height in pixels.
pub const LCD_HEIGHT: usize = 240;

/// Default VRAM base address.
pub const DEFAULT_VRAM_BASE: u32 = 0xD40000;

/// Control register: LCD enable.
pub const CTRL_ENABLE: u32 = 0x1;

/// Control register: BGR swap.
pub const CTRL_BGR: u32 = 0x100;

/// Control register: LCD power.
pub const CTRL_PWR: u32 = 0x800;

/// LCD DMA state machine states.
#[derive(Debug, Clone, Copy, PartialEq, Eq, Structural)]
pub enum LcdCompare {
    FrontPorch,
    Sync,
    Lnbu,
    BackPorch,
    ActiveVideo,
}

/// The number of a compare state (0-4).
pub open spec fn compare_code(c: LcdCompare) -> u8 {
    match c {
        LcdCompare::FrontPorch => 0,
        LcdCompare::Sync => 1,
        LcdCompare::Lnbu => 2,
        LcdCompare::BackPorch => 3,
        LcdCompare::ActiveVideo => 4,
    }
}

/// The compare state for a number (5 and above give active video).
pub open spec fn compare_of(code: u8) -> LcdCompare {
    if code == 0 {
        LcdCompare::FrontPorch
    } else if code == 1 {
        LcdCompare::Sync
    } else if code == 2 {
        LcdCompare::Lnbu
    } else if code == 3 {
        LcdCompare::BackPorch
    } else {
        LcdCompare::ActiveVideo
    }
}

/// Result of an LCD event.
pub struct LcdEventResult {
    /// Duration in 24 MHz ticks until the next LCD event.
    pub duration: u64,
    /// If set, schedule the DMA this many LCD ticks after this event.
    pub schedule_dma_offset: Option<u64>,
    /// Whether the interrupt state changed.
    pub interrupt_changed: bool,
}

/// Result of an LCD DMA event.
pub struct LcdDmaResult {
    /// If set, repeat the DMA after this many 48 MHz ticks.
    pub repeat_ticks: Option<u64>,
    /// If set, schedule the DMA relative to the LCD event with this offset.
    pub schedule_relative: Option<u64>,
}

/// LCD controller.
#[derive(Debug, Clone)]
pub struct LcdController {
    /// Timing registers.
    pub timing: [u32; 4],
    /// Control register.
    pub control: u32,
    /// Interrupt mask (bit 0 belongs to the cursor).
    pub imsc: u8,
    /// Raw interrupt status (bit 0 belongs to the cursor).
    pub ris: u8,
    /// Upper panel base address (VRAM).
    pub upbase: u32,
    /// Lower panel base address.
    pub lpbase: u32,
    /// Upper panel current address (DMA progress).
    pub upcurr: u32,
    /// Lower panel current address.
    pub lpcurr: u32,
    /// Raw palette bytes (256 entries of 2 bytes, 1555 format).
    pub palette: [u8; 512],
    /// Palette converted to BGR565 on every palette write.
    pub palette_bgr565: [u16; 256],
    /// Palette converted to RGB565 (red and blue swapped).
    pub palette_rgb565: [u16; 256],
    /// State of the LCD event state machine.
    pub compare: LcdCompare,
    /// In the FIFO prefill phase before active video.
    pub prefill: bool,
    /// FIFO position (wraps at 256 to end the prefill).
    pub pos: u8,
    /// Row being rendered.
    pub cur_row: u32,
    /// Column being rendered.
    pub cur_col: u32,
    /// Pixels per line.
    pub ppl: u32,
    /// Horizontal sync width.
    pub hsw: u32,
    /// Horizontal front porch.
    pub hfp: u32,
    /// Horizontal back porch.
    pub hbp: u32,
    /// Lines per panel.
    pub lpp: u32,
    /// Vertical sync width.
    pub vsw: u32,
    /// Vertical front porch.
    pub vfp: u32,
    /// Vertical back porch.
    pub vbp: u32,
    /// Panel clock divisor.
    pub pcd: u32,
    /// Clocks per line.
    pub cpl: u32,
    /// BPP mode from the control register.
    pub lcdbpp: u32,
    /// Effective BPP exponent.
    pub bpp: u32,
    /// Watermark flag (control bit 16).
    pub wtrmrk: u32,
    /// Pixels per FIFO fill.
    pub ppf: u32,
    /// Set when the LCD is enabled: the LCD event should be scheduled.
    pub needs_lcd_event: bool,
    /// Set when the LCD is disabled: the LCD event should be cleared.
    pub needs_lcd_clear: bool,
    /// Cursor image RAM (offsets 0x800-0xBFF).
    pub cursor_image: [u8; 1024],
    /// Cursor enable (0xC00 bit 0).
    pub crsr_control: u8,
    /// Cursor image index (0xC00 bits 5:4).
    pub crsr_image: u8,
    /// Cursor config (0xC04 bits 1:0).
    pub crsr_config: u8,
    /// Cursor palette 0 (24-bit).
    pub crsr_palette0: u32,
    /// Cursor palette 1 (24-bit).
    pub crsr_palette1: u32,
    /// Cursor position (two 12-bit fields).
    pub crsr_xy: u32,
    /// Cursor clip (two 6-bit fields).
    pub crsr_clip: u32,
}

/// The abstract state of an LCD controller.
#[verifier::ext_equal]
pub struct LcdState {
    pub timing: Seq<u32>,
    pub control: u32,
    pub imsc: u8,
    pub ris: u8,
    pub upbase: u32,
    pub lpbase: u32,
    pub upcurr: u32,
    pub lpcurr: u32,
    pub palette: Seq<u8>,
    pub palette_bgr565: Seq<u16>,
    pub palette_rgb565: Seq<u16>,
    pub compare: LcdCompare,
    pub prefill: bool,
    pub pos: u8,
    pub cur_row: u32,
    pub cur_col: u32,
    pub ppl: u32,
    pub hsw: u32,
    pub hfp: u32,
    pub hbp: u32,
    pub lpp: u32,
    pub vsw: u32,
    pub vfp: u32,
    pub vbp: u32,
    pub pcd: u32,
    pub cpl: u32,
    pub lcdbpp: u32,
    pub bpp: u32,
    pub wtrmrk: u32,
    pub ppf: u32,
    pub needs_lcd_event: bool,
    pub needs_lcd_clear: bool,
    pub cursor_image: Seq<u8>,
    pub crsr_control: u8,
    pub crsr_image: u8,
    pub crsr_config: u8,
    pub crsr_palette0: u32,
    pub crsr_palette1: u32,
    pub crsr_xy: u32,
    pub crsr_clip: u32,
}

impl View for LcdController {
    type V = LcdState;

    open spec fn view(&self) -> LcdState {
        LcdState {
            timing: self.timing@,
            control: self.control,
            imsc: self.imsc,
            ris: self.ris,
            upbase: self.upbase,
            lpbase: self.lpbase,
            upcurr: self.upcurr,
            lpcurr: self.lpcurr,
            palette: self.palette@,
            palette_bgr565: self.palette_bgr565@,
            palette_rgb565: self.palette_rgb565@,
            compare: self.compare,
            prefill: self.prefill,
            pos: self.pos,
            cur_row: self.cur_row,
            cur_col: self.cur_col,
            ppl: self.ppl,
            hsw: self.hsw,
            hfp: self.hfp,
            hbp: self.hbp,
            lpp: self.lpp,
            vsw: self.vsw,
            vfp: self.vfp,
            vbp: self.vbp,
            pcd: self.pcd,
            cpl: self.cpl,
            lcdbpp: self.lcdbpp,
            bpp: self.bpp,
            wtrmrk: self.wtrmrk,
            ppf: self.ppf,
            needs_lcd_event: self.needs_lcd_event,
            needs_lcd_clear: self.needs_lcd_clear,
            cursor_image: self.cursor_image@,
            crsr_control: self.crsr_control,
            crsr_image: self.crsr_image,
            crsr_config: self.crsr_config,
            crsr_palette0: self.crsr_palette0,
            crsr_palette1: self.crsr_palette1,
            crsr_xy: self.crsr_xy,
            crsr_clip: self.crsr_clip,
        }
    }
}

impl LcdState {
    /// The power-on state.
    pub open spec fn initial() -> Self {
        LcdState {
            timing: Seq::new(4, |i: int| 0u32),
            control: 0,
            imsc: 0,
            ris: 0,
            upbase: DEFAULT_VRAM_BASE,
            lpbase: 0,
            upcurr: 0,
            lpcurr: 0,
            palette: Seq::new(512, |i: int| 0u8),
            palette_bgr565: Seq::new(256, |i: int| 0u16),
            palette_rgb565: Seq::new(256, |i: int| 0u16),
            compare: LcdCompare::FrontPorch,
            prefill: false,
            pos: 0,
            cur_row: 0,
            cur_col: 0,
            ppl: 0,
            hsw: 0,
            hfp: 0,
            hbp: 0,
            lpp: 0,
            vsw: 0,
            vfp: 0,
            vbp: 0,
            pcd: 0,
            cpl: 0,
            lcdbpp: 0,
            bpp: 0,
            wtrmrk: 0,
            ppf: 0,
            needs_lcd_event: false,
            needs_lcd_clear: false,
            cursor_image: Seq::new(1024, |i: int| 0u8),
            crsr_control: 0,
            crsr_image: 0,
            crsr_config: 0,
            crsr_palette0: 0,
            crsr_palette1: 0,
            crsr_xy: 0,
            crsr_clip: 0,
        }
    }

    /// Array fields have their fixed lengths.
    pub open spec fn wf(self) -> bool {
        &&& self.timing.len() == 4
        &&& self.palette.len() == 512
        &&& self.palette_bgr565.len() == 256
        &&& self.palette_rgb565.len() == 256
        &&& self.cursor_image.len() == 1024
    }
}

/// One of the 32-bit registers with the byte lane at `sh` replaced by `v`.
pub open spec fn merge(w: u32, sh: u32, v: u8) -> u32 {
    (w & !(0xFFu32 << sh)) | (((v as u32) << sh) & (0xFFu32 << sh))
}

/// Conversion of a 1555 palette color to BGR565: the green MSB is doubled
/// into the new sixth green bit.
pub open spec fn bgr565_of(color: u16) -> u16 {
    vstd::wrapping::u16_specs::wrapping_add(
        vstd::wrapping::u16_specs::wrapping_add(color, color & 0xFFE0),
        (color >> 10u16) & 0x0020,
    )
}

/// BGR565 to RGB565: red and blue swapped.
pub open spec fn rgb565_of(bgr: u16) -> u16 {
    let diff = (bgr ^ (bgr >> 11u16)) & 0x1F;
    bgr ^ diff ^ (diff << 11u16)
}

/// The 1555 color that converts back to the given BGR565 color: blue, the
/// five high green bits and red in place, and the low green bit in bit 15.
pub open spec fn raw1555_of(bgr: u16) -> u16 {
    let r = bgr & 0x1F;
    let g6 = (bgr >> 5u16) & 0x3F;
    let b = (bgr >> 11u16) & 0x1F;
    (b << 10u16) | ((g6 >> 1u16) << 5u16) | r | ((g6 & 1) << 15u16)
}

/// The raw palette bytes rebuilt from a BGR565 table: each entry's 1555
/// color, low byte first.
pub open spec fn rebuilt_palette(bgr: Seq<u16>) -> Seq<u8> {
    Seq::new(
        512,
        |i: int|
            if i % 2 == 0 {
                raw1555_of(bgr[i / 2]) as u8
            } else {
                (raw1555_of(bgr[i / 2]) >> 8u16) as u8
            },
    )
}

/// Peripheral ID bytes, read at 0xFE0 + 4 * i.
pub open spec fn periph_id(i: int) -> u8 {
    if i == 0 {
        0x11
    } else if i == 1 {
        0x11
    } else if i == 2 {
        0x14
    } else if i == 3 {
        0x00
    } else if i == 4 {
        0x0D
    } else if i == 5 {
        0xF0
    } else if i == 6 {
        0x05
    } else {
        0xB1
    }
}

/// Wraps of the pixel column while `n` more pixels are processed from `col`
/// on a line of `cpl` columns, each wrap costing `per` ticks.
pub open spec fn wrap_ticks(col: u32, cpl: u32, n: nat, per: int) -> int
    decreases n,
{
    if n == 0 {
        0
    } else {
        let c = vstd::wrapping::u32_specs::wrapping_add(col, 1);
        if c >= cpl {
            per + wrap_ticks(0, cpl, (n - 1) as nat, per)
        } else {
            wrap_ticks(c, cpl, (n - 1) as nat, per)
        }
    }
}

impl LcdState {
    /// The timing parameters as the timing and control registers define them.
    pub open spec fn extracted(self) -> Self {
        let t0 = self.timing[0];
        let t1 = self.timing[1];
        let t2 = self.timing[2];
        let lcdbpp = (self.control >> 1u32) & 7;
        let wtrmrk = (self.control >> 16u32) & 1;
        let bpp = if lcdbpp <= 5 {
            lcdbpp
        } else {
            4u32
        };
        LcdState {
            ppl: ((((t0 >> 2u32) & 0x3F) + 1) as u32) << 4u32,
            hsw: (((t0 >> 8u32) & 0xFF) + 1) as u32,
            hfp: (((t0 >> 16u32) & 0xFF) + 1) as u32,
            hbp: (((t0 >> 24u32) & 0xFF) + 1) as u32,
            lpp: ((t1 & 0x3FF) + 1) as u32,
            vsw: (((t1 >> 10u32) & 0x3F) + 1) as u32,
            vfp: (t1 >> 16u32) & 0xFF,
            vbp: (t1 >> 24u32) & 0xFF,
            pcd: if (t2 >> 26u32) & 1 != 0 {
                1u32
            } else {
                (((t2 & 0x1F) | (((t2 >> 27u32) & 0x1F) << 5u32)) + 2) as u32
            },
            cpl: (((t2 >> 16u32) & 0x3FF) + 1) as u32,
            lcdbpp: lcdbpp,
            bpp: bpp,
            wtrmrk: wtrmrk,
            ppf: 1u32 << ((8 + wtrmrk - bpp) as u32),
            ..self
        }
    }

    /// The timing parameters lie in the ranges the timing registers can give.
    pub open spec fn bounded(self) -> bool {
        &&& self.hsw <= 256
        &&& self.hfp <= 256
        &&& self.hbp <= 256
        &&& self.cpl <= 1024
        &&& self.pcd <= 1025
        &&& self.lpp <= 1024
        &&& self.vsw <= 64
        &&& self.vfp <= 255
        &&& self.vbp <= 255
        &&& self.bpp <= 5
        &&& self.wtrmrk <= 1
    }

    /// Horizontal line length in panel clocks.
    pub open spec fn hline(self) -> int {
        self.hsw + self.hbp + self.cpl + self.hfp
    }

    /// Interrupt compare setting (control bits 13:12).
    pub open spec fn compare_setting(self) -> u8 {
        ((self.control >> 12u32) & 3) as u8
    }

    /// The raw status with the compare interrupt (bit 3) set when the compare
    /// setting selects state `code`.
    pub open spec fn compare_hit(self, code: u8) -> u8 {
        if self.compare_setting() == code {
            self.ris | 8
        } else {
            self.ris
        }
    }

    /// Entering sync: latch the timing, start the DMA prefill, go to LNBU.
    /// Returns the state, the duration and the DMA offset.
    pub open spec fn sync_step(self) -> (Self, u64, Option<u64>) {
        let e = LcdState { ris: self.compare_hit(1), ..self }.extracted();
        let duration = (((e.vsw - 1) * e.hline() + e.hsw) * e.pcd + 1) as u64;
        (
            LcdState {
                prefill: true,
                pos: 0,
                cur_row: 0,
                cur_col: 0,
                compare: LcdCompare::Lnbu,
                ..e
            },
            duration,
            Some(duration),
        )
    }

    /// Entering active video: go to front porch; start the DMA unless still
    /// prefilling.
    pub open spec fn active_step(self) -> (Self, u64, Option<u64>) {
        (
            LcdState { ris: self.compare_hit(4), compare: LcdCompare::FrontPorch, ..self },
            (self.lpp * self.hline() * self.pcd) as u64,
            if !self.prefill {
                Some(((self.hsw + self.hbp) * self.pcd) as u64)
            } else {
                None
            },
        )
    }

    /// One LCD event of the state machine.
    pub open spec fn event(self) -> (Self, u64, Option<u64>) {
        match self.compare {
            LcdCompare::FrontPorch => {
                let s = LcdState { ris: self.ris | 1, ..self };
                if s.vfp > 0 {
                    (
                        LcdState { ris: s.compare_hit(0), compare: LcdCompare::Sync, ..s },
                        (s.vfp * s.hline() * s.pcd) as u64,
                        None,
                    )
                } else {
                    s.sync_step()
                }
            },
            LcdCompare::Sync => self.sync_step(),
            LcdCompare::Lnbu => (
                LcdState { ris: self.ris | 4, compare: LcdCompare::BackPorch, ..self },
                ((self.hbp + self.cpl + self.hfp) * self.pcd - 1) as u64,
                None,
            ),
            LcdCompare::BackPorch => {
                if self.vbp > 0 {
                    (
                        LcdState {
                            ris: self.compare_hit(3),
                            compare: LcdCompare::ActiveVideo,
                            ..self
                        },
                        (self.vbp * self.hline() * self.pcd) as u64,
                        None,
                    )
                } else {
                    self.active_step()
                }
            },
            LcdCompare::ActiveVideo => self.active_step(),
        }
    }

    /// The arithmetic of an LCD event cannot fail.
    pub open spec fn event_ok(self) -> bool {
        &&& self.bounded()
        &&& self.compare == LcdCompare::Lnbu ==> (self.hbp + self.cpl + self.hfp) * self.pcd >= 1
    }

    /// Pixels per active-video DMA event.
    pub open spec fn dma_pixels(self) -> u32 {
        (if self.wtrmrk != 0 {
            16u32
        } else {
            8u32
        }) << ((5 - self.bpp) as u32)
    }

    /// Bytes per active-video DMA event.
    pub open spec fn fill_bytes(self) -> u32 {
        if self.wtrmrk != 0 {
            64
        } else {
            32
        }
    }

    /// Ticks that processing `words` FIFO words takes once the column has
    /// advanced: each column wrap costs (HFP + HSW + HBP) * PCD * 2 ticks, and
    /// an event takes at least 19 (watermark) or 11 ticks.
    pub open spec fn words_ticks(self, words: u32) -> u64 {
        let pixels = words << ((5 - self.bpp) as u32);
        let per = (self.hfp + self.hsw + self.hbp) * self.pcd * 2;
        let t = wrap_ticks(
            vstd::wrapping::u32_specs::wrapping_sub(self.cur_col, pixels),
            self.cpl,
            pixels as nat,
            per,
        );
        let base: int = if self.wtrmrk != 0 {
            19
        } else {
            11
        };
        (if t > base {
            t
        } else {
            base
        }) as u64
    }

    /// Events, pixels per event and total pixels of a fast-forward by
    /// `count` DMA events (stopping at the end of the frame).
    pub open spec fn ff_events(self, count: u64) -> int {
        let ppe = self.dma_pixels() as int;
        let remaining: int = if self.cur_row < self.lpp {
            (self.lpp - self.cur_row) * self.cpl - (if self.cur_col < self.cpl {
                self.cur_col as int
            } else {
                self.cpl as int
            })
        } else {
            0
        };
        let to_end: int = if ppe > 0 && remaining > 0 {
            (remaining + ppe - 1) / ppe
        } else {
            0
        };
        if count < to_end {
            count as int
        } else {
            to_end
        }
    }

    /// The arithmetic of a fast-forward cannot fail.
    pub open spec fn ff_ok(self, count: u64) -> bool {
        let n = self.ff_events(count);
        &&& self.bounded()
        &&& !self.prefill && count != 0 && self.cpl != 0 && n != 0 ==> {
            &&& n * self.fill_bytes() <= u32::MAX
            &&& self.cur_row + (self.cur_col + n * self.dma_pixels()) / (self.cpl as int)
                <= u32::MAX
        }
    }

    /// The state after fast-forwarding by `count` DMA events: the column, row
    /// and UPCURR advance as that many events would advance them, stopping at
    /// the end of the frame. Nothing moves during the prefill.
    pub open spec fn fast_forwarded(self, count: u64) -> Self {
        let n = self.ff_events(count);
        if self.prefill || count == 0 || self.cpl == 0 || n == 0 {
            self
        } else {
            let new_abs = self.cur_col + n * self.dma_pixels();
            LcdState {
                cur_col: (new_abs % (self.cpl as int)) as u32,
                cur_row: (self.cur_row + new_abs / (self.cpl as int)) as u32,
                upcurr: vstd::wrapping::u32_specs::wrapping_add(
                    self.upcurr,
                    (n * self.fill_bytes()) as u32,
                ),
                ..self
            }
        }
    }

    /// The arithmetic of a DMA event cannot fail and its loop ends.
    pub open spec fn dma_ok(self) -> bool {
        &&& self.bounded()
        &&& !self.prefill ==> {
            &&& self.cpl > 0
            &&& self.cur_col + self.dma_pixels() <= u32::MAX
            &&& self.cur_row + (self.cur_col + self.dma_pixels()) / (self.cpl as int) <= u32::MAX
        }
    }

    /// One DMA event: returns the state, the repeat delay and the offset
    /// relative to the LCD event.
    pub open spec fn dma(self) -> (Self, Option<u64>, Option<u64>) {
        if self.prefill {
            let start = if self.pos == 0 {
                self.upbase
            } else {
                self.upcurr
            };
            let pos = vstd::wrapping::u8_specs::wrapping_add(self.pos, 64);
            let s = LcdState {
                upcurr: vstd::wrapping::u32_specs::wrapping_add(start, 64),
                pos: pos,
                ..self
            };
            if pos != 0 {
                (s, Some(if pos == 128 { 22u64 } else { 19u64 }), None)
            } else if self.compare == LcdCompare::FrontPorch {
                (
                    LcdState { prefill: false, ..s },
                    None,
                    Some(((self.hsw + self.hbp) * self.pcd) as u64),
                )
            } else {
                (LcdState { prefill: false, ..s }, None, None)
            }
        } else {
            let total = self.cur_col + self.dma_pixels();
            let s = LcdState {
                cur_col: (total % (self.cpl as int)) as u32,
                cur_row: (self.cur_row + total / (self.cpl as int)) as u32,
                upcurr: vstd::wrapping::u32_specs::wrapping_add(self.upcurr, self.fill_bytes()),
                ..self
            };
            if s.cur_row < s.lpp {
                (s, Some(s.words_ticks(if s.wtrmrk != 0 { 16u32 } else { 8u32 })), None)
            } else {
                (s, None, None)
            }
        }
    }

    /// The byte a register read returns.
    pub open spec fn register_byte(self, addr: u32) -> u8 {
        let index = addr & 0xFFF;
        let sh = lane(addr);
        if index < 0x200 {
            let reg = index & 0xFFC;
            if reg <= 0x0C {
                byte_at(self.timing[(reg >> 2u32) as int], sh)
            } else if reg == 0x10 {
                byte_at(self.upbase, sh)
            } else if reg == 0x14 {
                byte_at(self.lpbase, sh)
            } else if reg == 0x18 {
                byte_at(self.control, sh)
            } else if reg == 0x1C && sh == 0 {
                self.imsc & !1u8
            } else if reg == 0x20 && sh == 0 {
                self.ris & !1u8
            } else if reg == 0x24 && sh == 0 {
                self.imsc & self.ris & !1u8
            } else if reg == 0x2C {
                byte_at(self.upcurr, sh)
            } else if reg == 0x30 {
                byte_at(self.lpcurr, sh)
            } else {
                0
            }
        } else if index < 0x400 {
            self.palette[index - 0x200]
        } else if 0x800 <= index < 0xC00 {
            self.cursor_image[index - 0x800]
        } else if 0xC00 <= index < 0xE00 {
            if index == 0xC00 {
                self.crsr_control | (self.crsr_image << 4u8)
            } else if index == 0xC04 {
                self.crsr_config
            } else if 0xC08 <= index <= 0xC0B {
                byte_at(self.crsr_palette0, sh)
            } else if 0xC0C <= index <= 0xC0F {
                byte_at(self.crsr_palette1, sh)
            } else if 0xC10 <= index <= 0xC13 {
                byte_at(self.crsr_xy, sh)
            } else if 0xC14 <= index <= 0xC15 {
                byte_at(self.crsr_clip, sh)
            } else if index == 0xC20 {
                self.imsc & 1
            } else if index == 0xC28 {
                self.ris & 1
            } else if index == 0xC2C {
                self.ris & self.imsc & 1
            } else {
                0
            }
        } else if index >= 0xFE0 {
            periph_id((index - 0xFE0) / 4)
        } else {
            0
        }
    }

    /// The palette after writing byte `p` (0-511) with `v`: when the byte
    /// changes, its entry is converted again.
    pub open spec fn palette_written(self, p: int, v: u8) -> Self {
        if self.palette[p] == v {
            self
        } else {
            let pal = self.palette.update(p, v);
            let e = p / 2;
            let color = ((pal[2 * e] as u16) | ((pal[2 * e + 1] as u16) << 8u16)) as u16;
            let bgr = bgr565_of(color);
            LcdState {
                palette: pal,
                palette_bgr565: self.palette_bgr565.update(e, bgr),
                palette_rgb565: self.palette_rgb565.update(e, rgb565_of(bgr)),
                ..self
            }
        }
    }

    /// The state after a register byte write.
    pub open spec fn written(self, addr: u32, value: u8) -> Self {
        let index = addr & 0xFFF;
        let sh = lane(addr);
        if index < 0x200 {
            let reg = index & 0xFFC;
            if reg <= 0x0C {
                let i = (reg >> 2u32) as int;
                LcdState {
                    timing: self.timing.update(i, merge(self.timing[i], sh, value)),
                    ..self
                }
            } else if reg == 0x10 {
                LcdState { upbase: merge(self.upbase, sh, value) & !7u32, ..self }
            } else if reg == 0x14 {
                LcdState { lpbase: merge(self.lpbase, sh, value) & !7u32, ..self }
            } else if reg == 0x18 {
                let c = merge(self.control, sh, value);
                let s = LcdState { control: c, ..self };
                if (c ^ self.control) & 1 != 0 {
                    if c & 1 != 0 {
                        LcdState { compare: LcdCompare::Sync, needs_lcd_event: true, ..s }
                    } else {
                        LcdState { needs_lcd_clear: true, ..s }
                    }
                } else {
                    s
                }
            } else if reg == 0x1C && sh == 0 {
                LcdState { imsc: (self.imsc & !0x1Eu8) | (value & 0x1E), ..self }
            } else if reg == 0x28 && sh == 0 {
                LcdState { ris: self.ris & !(value & 0x1E), ..self }
            } else {
                self
            }
        } else if index < 0x400 {
            self.palette_written(index - 0x200, value)
        } else if 0x800 <= index < 0xC00 {
            LcdState { cursor_image: self.cursor_image.update(index - 0x800, value), ..self }
        } else if 0xC00 <= index < 0xE00 {
            let r = index & 0xFFC;
            if r == 0xC00 && sh == 0 {
                LcdState { crsr_control: value & 1, crsr_image: (value >> 4u8) & 3, ..self }
            } else if r == 0xC04 && sh == 0 {
                LcdState { crsr_config: value & 3, ..self }
            } else if r == 0xC08 && sh < 24 {
                LcdState { crsr_palette0: merge(self.crsr_palette0, sh, value), ..self }
            } else if r == 0xC0C && sh < 24 {
                LcdState { crsr_palette1: merge(self.crsr_palette1, sh, value), ..self }
            } else if r == 0xC10 {
                LcdState { crsr_xy: merge(self.crsr_xy, sh, value) & 0x0FFF0FFF, ..self }
            } else if r == 0xC14 {
                LcdState { crsr_clip: merge(self.crsr_clip, sh, value) & 0x003F003F, ..self }
            } else if r == 0xC20 && sh == 0 {
                LcdState { imsc: (self.imsc & !1u8) | (value & 1), ..self }
            } else if r == 0xC24 && sh == 0 {
                LcdState { ris: self.ris & !(value & 1), ..self }
            } else {
                self
            }
        } else {
            self
        }
    }

    /// The cursor registers packed as a snapshot holds them.
    pub open spec fn crsr_words(self) -> Seq<u32> {
        seq![
            (self.crsr_control as u32) | ((self.crsr_image as u32) << 4u32) | ((self.crsr_config as u32) << 8u32),
            self.crsr_palette0,
            self.crsr_palette1,
            self.crsr_xy,
            self.crsr_clip,
        ]
    }
}

impl LcdController {
    /// Create an LCD controller in its power-on state.
    pub fn new() -> (r: Self)
        ensures
            r@ == LcdState::initial(),
    {
        let r = LcdController {
            timing: [0u32; 4],
            control: 0,
            imsc: 0,
            ris: 0,
            upbase: DEFAULT_VRAM_BASE,
            lpbase: 0,
            upcurr: 0,
            lpcurr: 0,
            palette: [0u8; 512],
            palette_bgr565: [0u16; 256],
            palette_rgb565: [0u16; 256],
            compare: LcdCompare::FrontPorch,
            prefill: false,
            pos: 0,
            cur_row: 0,
            cur_col: 0,
            ppl: 0,
            hsw: 0,
            hfp: 0,
            hbp: 0,
            lpp: 0,
            vsw: 0,
            vfp: 0,
            vbp: 0,
            pcd: 0,
            cpl: 0,
            lcdbpp: 0,
            bpp: 0,
            wtrmrk: 0,
            ppf: 0,
            needs_lcd_event: false,
            needs_lcd_clear: false,
            cursor_image: [0u8; 1024],
            crsr_control: 0,
            crsr_image: 0,
            crsr_config: 0,
            crsr_palette0: 0,
            crsr_palette1: 0,
            crsr_xy: 0,
            crsr_clip: 0,
        };
        assert(r.timing@ =~= Seq::new(4, |i: int| 0u32));
        assert(r.palette@ =~= Seq::new(512, |i: int| 0u8));
        assert(r.palette_bgr565@ =~= Seq::new(256, |i: int| 0u16));
        assert(r.palette_rgb565@ =~= Seq::new(256, |i: int| 0u16));
        assert(r.cursor_image@ =~= Seq::new(1024, |i: int| 0u8));
        assert(r@ =~= LcdState::initial());
        r
    }

    /// Reset to the power-on state.
    pub fn reset(&mut self)
        ensures
            final(self)@ == LcdState::initial(),
    {
        *self = Self::new();
    }

    /// LCD enabled (control bit 0).
    pub fn is_enabled(&self) -> (r: bool)
        ensures
            r == (self.control & 1 != 0),
    {
        self.control & CTRL_ENABLE != 0
    }

    /// LCD power on (control bit 11).
    pub fn is_powered(&self) -> (r: bool)
        ensures
            r == (self.control & 0x800 != 0),
    {
        self.control & CTRL_PWR != 0
    }

    pub fn control(&self) -> (r: u32)
        ensures
            r == self.control,
    {
        self.control
    }

    pub fn int_mask(&self) -> (r: u32)
        ensures
            r == self.imsc as u32,
    {
        self.imsc as u32
    }

    pub fn int_status(&self) -> (r: u32)
        ensures
            r == self.ris as u32,
    {
        self.ris as u32
    }

    pub fn timing(&self) -> (r: [u32; 4])
        ensures
            r == self.timing,
    {
        self.timing
    }

    pub fn upbase(&self) -> (r: u32)
        ensures
            r == self.upbase,
    {
        self.upbase
    }

    pub fn lpbase(&self) -> (r: u32)
        ensures
            r == self.lpbase,
    {
        self.lpbase
    }

    /// BPP mode (control bits 3:1).
    pub fn bpp_mode(&self) -> (r: u8)
        ensures
            r == ((self.control >> 1u32) & 7) as u8,
    {
        ((self.control >> 1) & 0x07) as u8
    }

    /// The converted palette for the current color order: BGR565 when the BGR
    /// bit (control bit 8) is clear, RGB565 when it is set.
    pub fn palette_for_mode(&self) -> (r: &[u16; 256])
        ensures
            *r == (if self.control & CTRL_BGR != 0 {
                self.palette_rgb565
            } else {
                self.palette_bgr565
            }),
    {
        if self.control & CTRL_BGR != 0 {
            &self.palette_rgb565
        } else {
            &self.palette_bgr565
        }
    }

    /// LCD interrupt active (raw status & mask).
    pub fn check_interrupt(&self) -> (r: bool)
        ensures
            r == (self.ris & self.imsc != 0),
    {
        (self.ris & self.imsc) != 0
    }

    /// Latch the timing parameters from the timing and control registers.
    pub fn extract_timing(&mut self)
        ensures
            final(self)@ == old(self)@.extracted(),
            final(self)@.bounded(),
            final(self).vsw >= 1,
            final(self).pcd >= 1,
            final(self).cpl >= 1,
            final(self).hbp >= 1,
    {
        let t0 = self.timing[0];
        let t1 = self.timing[1];
        let t2 = self.timing[2];
        let c = self.control;
        proof {
            lemma_mask_facts();
        }
        assert(((t0 >> 2u32) & 0x3F) <= 0x3F && ((t0 >> 8u32) & 0xFF) <= 0xFF && ((t0 >> 16u32)
            & 0xFF) <= 0xFF && ((t0 >> 24u32) & 0xFF) <= 0xFF);
        assert((t1 & 0x3FF) <= 0x3FF && ((t1 >> 10u32) & 0x3F) <= 0x3F && ((t1 >> 16u32) & 0xFF)
            <= 0xFF && ((t1 >> 24u32) & 0xFF) <= 0xFF);
        assert(((c >> 1u32) & 7) <= 7 && ((c >> 16u32) & 1) <= 1 && ((t2 >> 16u32) & 0x3FF)
            <= 0x3FF);
        let x = (t0 >> 2) & 0x3F;
        let x1 = x + 1;
        assert(((t2 & 0x1F) | (((t2 >> 27u32) & 0x1F) << 5u32)) <= 1023 && (x1 <= 0x40 ==> x1
            << 4u32 <= 1024)) by (bit_vector);
        self.ppl = x1 << 4u32;
        self.hsw = ((t0 >> 8) & 0xFF) + 1;
        self.hfp = ((t0 >> 16) & 0xFF) + 1;
        self.hbp = ((t0 >> 24) & 0xFF) + 1;
        self.lpp = (t1 & 0x3FF) + 1;
        self.vsw = ((t1 >> 10) & 0x3F) + 1;
        self.vfp = (t1 >> 16) & 0xFF;
        self.vbp = (t1 >> 24) & 0xFF;
        self.pcd = ((t2 & 0x1F) | (((t2 >> 27) & 0x1F) << 5)) + 2;
        self.cpl = ((t2 >> 16) & 0x3FF) + 1;
        if (t2 >> 26) & 1 != 0 {
            self.pcd = 1;
        }
        self.lcdbpp = (c >> 1) & 7;
        self.wtrmrk = (c >> 16) & 1;
        self.bpp = if self.lcdbpp <= 5 {
            self.lcdbpp
        } else {
            4
        };
        self.ppf = 1u32 << (8 + self.wtrmrk - self.bpp);
        assert(self@ =~= old(self)@.extracted());
    }

    /// Horizontal line length in panel clocks.
    pub fn hline(&self) -> (r: u32)
        requires
            self@.bounded(),
        ensures
            r == self@.hline(),
    {
        self.hsw + self.hbp + self.cpl + self.hfp
    }

    /// Process an LCD event: advance the state machine and return the
    /// duration in 24 MHz ticks until the next event and, on entering LNBU or
    /// active video, the offset at which to schedule the DMA.
    pub fn process_event(&mut self) -> (r: LcdEventResult)
        requires
            old(self)@.event_ok(),
        ensures
            final(self)@ == old(self)@.event().0,
            r.duration == old(self)@.event().1,
            r.schedule_dma_offset == old(self)@.event().2,
            r.interrupt_changed,
            final(self)@.bounded(),
    {
        let compare_setting = ((self.control >> 12) & 3) as u8;
        match self.compare {
            LcdCompare::FrontPorch => {
                self.ris = self.ris | 1;
                if self.vfp > 0 {
                    if compare_setting == 0 {
                        self.ris = self.ris | 8;
                    }
                    let h = self.hline() as u64;
                    let (a, p) = (self.vfp as u64, self.pcd as u64);
                    assert(a * h <= 255 * 1792 && a * h * p <= 255 * 1792 * 1025) by (nonlinear_arith)
                        requires
                            a <= 255,
                            h <= 1792,
                            p <= 1025,
                    ;
                    let duration = a * h * p;
                    self.compare = LcdCompare::Sync;
                    LcdEventResult { duration, schedule_dma_offset: None, interrupt_changed: true }
                } else {
                    self.process_sync_state(compare_setting)
                }
            },
            LcdCompare::Sync => self.process_sync_state(compare_setting),
            LcdCompare::Lnbu => {
                self.ris = self.ris | 4;
                let (a, p) = ((self.hbp + self.cpl + self.hfp) as u64, self.pcd as u64);
                assert(a * p <= 1536 * 1025) by (nonlinear_arith)
                    requires
                        a <= 1536,
                        p <= 1025,
                ;
                let duration = a * p - 1;
                self.compare = LcdCompare::BackPorch;
                LcdEventResult { duration, schedule_dma_offset: None, interrupt_changed: true }
            },
            LcdCompare::BackPorch => {
                if self.vbp > 0 {
                    if compare_setting == 3 {
                        self.ris = self.ris | 8;
                    }
                    let h = self.hline() as u64;
                    let (a, p) = (self.vbp as u64, self.pcd as u64);
                    assert(a * h <= 255 * 1792 && a * h * p <= 255 * 1792 * 1025) by (nonlinear_arith)
                        requires
                            a <= 255,
                            h <= 1792,
                            p <= 1025,
                    ;
                    let duration = a * h * p;
                    self.compare = LcdCompare::ActiveVideo;
                    LcdEventResult { duration, schedule_dma_offset: None, interrupt_changed: true }
                } else {
                    self.process_active_video_state(compare_setting)
                }
            },
            LcdCompare::ActiveVideo => self.process_active_video_state(compare_setting),
        }
    }

    /// Sync: latch the timing, start the DMA prefill and go to LNBU.
    pub fn process_sync_state(&mut self, compare_setting: u8) -> (r: LcdEventResult)
        requires
            compare_setting == old(self)@.compare_setting(),
        ensures
            final(self)@ == old(self)@.sync_step().0,
            r.duration == old(self)@.sync_step().1,
            r.schedule_dma_offset == old(self)@.sync_step().2,
            r.interrupt_changed,
            final(self)@.bounded(),
    {
        if compare_setting == 1 {
            self.ris = self.ris | 8;
        }
        self.extract_timing();
        let h = self.hline() as u64;
        let (v, w, p) = ((self.vsw - 1) as u64, self.hsw as u64, self.pcd as u64);
        assert(v * h <= 63 * 1792 && (v * h + w) * p <= (63 * 1792 + 256) * 1025) by (nonlinear_arith)
            requires
                v <= 63,
                h <= 1792,
                w <= 256,
                p <= 1025,
        ;
        let duration = (v * h + w) * p + 1;
        self.prefill = true;
        self.pos = 0;
        self.cur_row = 0;
        self.cur_col = 0;
        self.compare = LcdCompare::Lnbu;
        LcdEventResult { duration, schedule_dma_offset: Some(duration), interrupt_changed: true }
    }

    /// Active video: go to front porch and, unless prefilling, start the DMA.
    pub fn process_active_video_state(&mut self, compare_setting: u8) -> (r: LcdEventResult)
        requires
            compare_setting == old(self)@.compare_setting(),
            old(self)@.bounded(),
        ensures
            final(self)@ == old(self)@.active_step().0,
            r.duration == old(self)@.active_step().1,
            r.schedule_dma_offset == old(self)@.active_step().2,
            r.interrupt_changed,
            final(self)@.bounded(),
    {
        if compare_setting == 4 {
            self.ris = self.ris | 8;
        }
        let h = self.hline() as u64;
        let (l, p) = (self.lpp as u64, self.pcd as u64);
        assert(l * h <= 1024 * 1792 && l * h * p <= 1024 * 1792 * 1025) by (nonlinear_arith)
            requires
                l <= 1024,
                h <= 1792,
                p <= 1025,
        ;
        let duration = l * h * p;
        let (a, b) = (self.hsw as u64, self.hbp as u64);
        assert((a + b) * p <= 512 * 1025) by (nonlinear_arith)
            requires
                a <= 256,
                b <= 256,
                p <= 1025,
        ;
        let schedule_dma_offset = if !self.prefill {
            Some((a + b) * p)
        } else {
            None
        };
        self.compare = LcdCompare::FrontPorch;
        LcdEventResult { duration, schedule_dma_offset, interrupt_changed: true }
    }

    /// Process a DMA event. During the prefill, UPCURR advances 64 bytes per
    /// event (starting from UPBASE) until four fills wrap the FIFO position;
    /// in active video, the column and row advance by the event's pixels and
    /// UPCURR by the bytes fetched.
    pub fn process_dma(&mut self) -> (r: LcdDmaResult)
        requires
            old(self)@.dma_ok(),
        ensures
            final(self)@ == old(self)@.dma().0,
            r.repeat_ticks == old(self)@.dma().1,
            r.schedule_relative == old(self)@.dma().2,
    {
        if self.prefill {
            if self.pos == 0 {
                self.upcurr = self.upbase;
            }
            self.upcurr = self.upcurr.wrapping_add(64);
            self.pos = self.pos.wrapping_add(64);
            if self.pos != 0 {
                let repeat: u64 = if self.pos == 128 {
                    22
                } else {
                    19
                };
                return LcdDmaResult { repeat_ticks: Some(repeat), schedule_relative: None };
            }
            self.prefill = false;
            if self.compare == LcdCompare::FrontPorch {
                let (a, b, p) = (self.hsw as u64, self.hbp as u64, self.pcd as u64);
                assert((a + b) * p <= 512 * 1025) by (nonlinear_arith)
                    requires
                        a <= 256,
                        b <= 256,
                        p <= 1025,
                ;
                return LcdDmaResult { repeat_ticks: None, schedule_relative: Some((a + b) * p) };
            }
            return LcdDmaResult { repeat_ticks: None, schedule_relative: None };
        }
        let fill_bytes: u32 = if self.wtrmrk != 0 {
            64
        } else {
            32
        };
        let words: u32 = if self.wtrmrk != 0 {
            16
        } else {
            8
        };
        let pixels = words << (5 - self.bpp);
        let ghost total = self.cur_col + pixels;
        let ghost row0 = self.cur_row;
        let cpl = self.cpl;
        self.cur_col = self.cur_col + pixels;
        while self.cur_col >= cpl
            invariant
                cpl == self.cpl,
                cpl > 0,
                self.cur_row + (self.cur_col as int) / (cpl as int) == row0 + total / (cpl as int),
                (self.cur_col as int) % (cpl as int) == total % (cpl as int),
                row0 + total / (cpl as int) <= u32::MAX,
                self@ == (LcdState { cur_col: self.cur_col, cur_row: self.cur_row, ..old(self)@ }),
            decreases self.cur_col,
        {
            proof {
                vstd::arithmetic::div_mod::lemma_div_minus_one(self.cur_col as int, cpl as int);
                vstd::arithmetic::div_mod::lemma_mod_sub_multiples_vanish(
                    self.cur_col as int,
                    cpl as int,
                );
                assert((self.cur_col as int) / (cpl as int) >= 1) by (nonlinear_arith)
                    requires
                        self.cur_col >= cpl,
                        cpl > 0,
                ;
            }
            self.cur_col = self.cur_col - cpl;
            self.cur_row = self.cur_row + 1;
        }
        proof {
            vstd::arithmetic::div_mod::lemma_small_mod(self.cur_col as nat, cpl as nat);
            vstd::arithmetic::div_mod::lemma_basic_div(self.cur_col as int, cpl as int);
        }
        let ticks = self.process_words_ticks(words);
        self.upcurr = self.upcurr.wrapping_add(fill_bytes);
        if self.cur_row < self.lpp {
            LcdDmaResult { repeat_ticks: Some(ticks), schedule_relative: None }
        } else {
            LcdDmaResult { repeat_ticks: None, schedule_relative: None }
        }
    }

    /// Ticks that processing `words` FIFO words takes once the column has
    /// advanced.
    pub fn process_words_ticks(&self, words: u32) -> (r: u64)
        requires
            self@.bounded(),
            words <= 16,
        ensures
            r == self@.words_ticks(words),
    {
        let sh = 5 - self.bpp;
        let pixels = words << sh;
        assert(pixels <= 512) by (bit_vector)
            requires
                pixels == words << sh,
                sh <= 5,
                words <= 16,
        ;
        let (a, p) = ((self.hfp + self.hsw + self.hbp) as u64, self.pcd as u64);
        assert(a * p <= 768 * 1025 && a * p * 2 <= 768 * 1025 * 2) by (nonlinear_arith)
            requires
                a <= 768,
                p <= 1025,
        ;
        let per = a * p * 2;
        let mut ticks: u64 = 0;
        let mut col = self.cur_col.wrapping_sub(pixels);
        let ghost col0 = col;
        let mut k: u32 = 0;
        while k < pixels
            invariant
                k <= pixels <= 512,
                per == (self.hfp + self.hsw + self.hbp) * self.pcd * 2,
                per <= 768 * 1025 * 2,
                ticks <= k * per,
                ticks + wrap_ticks(col, self.cpl, (pixels - k) as nat, per as int) == wrap_ticks(
                    col0,
                    self.cpl,
                    pixels as nat,
                    per as int,
                ),
            decreases pixels - k,
        {
            col = col.wrapping_add(1);
            if col >= self.cpl {
                col = 0;
                assert(ticks + per <= (k + 1) * per) by (nonlinear_arith)
                    requires
                        ticks <= k * per,
                ;
                assert((k + 1) * per <= 513 * (768 * 1025 * 2)) by (nonlinear_arith)
                    requires
                        k < 512,
                        per <= 768 * 1025 * 2,
                ;
                ticks = ticks + per;
            } else {
                assert(ticks <= (k + 1) * per) by (nonlinear_arith)
                    requires
                        ticks <= k * per,
                ;
            }
            k = k + 1;
        }
        let base_ticks: u64 = if self.wtrmrk != 0 {
            19
        } else {
            11
        };
        if ticks > base_ticks {
            ticks
        } else {
            base_ticks
        }
    }

    /// Advance the DMA counters and UPCURR by `count` DMA events at once
    /// (stopping at the end of the frame), without per-event work.
    pub fn fast_forward_dma_events(&mut self, count: u64)
        requires
            old(self)@.ff_ok(count),
        ensures
            final(self)@ == old(self)@.fast_forwarded(count),
    {
        if self.prefill || count == 0 || self.cpl == 0 {
            return;
        }
        let fill_bytes: u32 = if self.wtrmrk != 0 {
            64
        } else {
            32
        };
        let words: u32 = if self.wtrmrk != 0 {
            16
        } else {
            8
        };
        let sh = 5 - self.bpp;
        let pixels_per_event = words << sh;
        assert(8 <= pixels_per_event <= 512) by (bit_vector)
            requires
                pixels_per_event == words << sh,
                words == 8 || words == 16,
                sh <= 5,
        ;
        let (l, c) = ((self.lpp - if self.cur_row < self.lpp { self.cur_row } else { 0 }) as u64, self.cpl as u64);
        assert(l * c <= 0xFFFF_FFFF * 0xFFFF_FFFF) by (nonlinear_arith)
            requires
                l <= 0xFFFF_FFFF,
                c <= 0xFFFF_FFFF,
        ;
        let remaining_pixels: u64 = if self.cur_row < self.lpp {
            let m = if self.cur_col < self.cpl {
                self.cur_col as u64
            } else {
                self.cpl as u64
            };
            assert(l * c >= c) by (nonlinear_arith)
                requires
                    l >= 1,
            ;
            l * c - m
        } else {
            0
        };
        let ppe = pixels_per_event as u64;
        let events_to_end = if remaining_pixels > 0 {
            (remaining_pixels + ppe - 1) / ppe
        } else {
            0
        };
        let actual = if count < events_to_end {
            count
        } else {
            events_to_end
        };
        if actual == 0 {
            return;
        }
        assert(actual * ppe <= remaining_pixels + ppe) by (nonlinear_arith)
            requires
                actual <= (remaining_pixels + ppe - 1) / (ppe as int),
                ppe > 0,
        ;
        assert(ppe == old(self)@.dma_pixels());
        assert(remaining_pixels == (if self.cur_row < self.lpp {
            (self.lpp - self.cur_row) * self.cpl - (if self.cur_col < self.cpl {
                self.cur_col as int
            } else {
                self.cpl as int
            })
        } else {
            0
        }));
        assert(actual == old(self)@.ff_events(count));
        let total_pixels = actual * ppe;
        let new_abs = self.cur_col as u64 + total_pixels;
        self.cur_col = (new_abs % self.cpl as u64) as u32;
        self.cur_row = self.cur_row + (new_abs / self.cpl as u64) as u32;
        assert(actual * (fill_bytes as int) <= u32::MAX);
        assert(actual <= u32::MAX) by (nonlinear_arith)
            requires
                actual * (fill_bytes as int) <= u32::MAX,
                fill_bytes >= 32,
        ;
        let a32 = actual as u32;
        assert(a32 * fill_bytes <= u32::MAX);
        self.upcurr = self.upcurr.wrapping_add(a32 * fill_bytes);
        assert(self@ =~= old(self)@.fast_forwarded(count));
    }

    /// Read a register byte (address relative to the controller base).
    pub fn read(&self, addr: u32) -> (r: u8)
        ensures
            r == self@.register_byte(addr),
    {
        let index = addr & 0xFFF;
        let bit_offset = lane_of(addr);
        proof {
            lemma_mask_facts();
        }
        if index < 0x200 {
            let reg = index & 0xFFC;
            if reg <= 0x0C {
                assert((reg >> 2u32) <= 3);
                get_byte(self.timing[(reg >> 2) as usize], bit_offset)
            } else if reg == 0x10 {
                get_byte(self.upbase, bit_offset)
            } else if reg == 0x14 {
                get_byte(self.lpbase, bit_offset)
            } else if reg == 0x18 {
                get_byte(self.control, bit_offset)
            } else if reg == 0x1C && bit_offset == 0 {
                self.imsc & !1u8
            } else if reg == 0x20 && bit_offset == 0 {
                self.ris & !1u8
            } else if reg == 0x24 && bit_offset == 0 {
                self.imsc & self.ris & !1u8
            } else if reg == 0x2C {
                get_byte(self.upcurr, bit_offset)
            } else if reg == 0x30 {
                get_byte(self.lpcurr, bit_offset)
            } else {
                0
            }
        } else if index < 0x400 {
            self.palette[(index - 0x200) as usize]
        } else if index >= 0x800 && index < 0xC00 {
            self.cursor_image[(index - 0x800) as usize]
        } else if index >= 0xC00 && index < 0xE00 {
            if index == 0xC00 {
                self.crsr_control | (self.crsr_image << 4u8)
            } else if index == 0xC04 {
                self.crsr_config
            } else if 0xC08 <= index && index <= 0xC0B {
                get_byte(self.crsr_palette0, bit_offset)
            } else if 0xC0C <= index && index <= 0xC0F {
                get_byte(self.crsr_palette1, bit_offset)
            } else if 0xC10 <= index && index <= 0xC13 {
                get_byte(self.crsr_xy, bit_offset)
            } else if 0xC14 <= index && index <= 0xC15 {
                get_byte(self.crsr_clip, bit_offset)
            } else if index == 0xC20 {
                self.imsc & 1
            } else if index == 0xC28 {
                self.ris & 1
            } else if index == 0xC2C {
                self.ris & self.imsc & 1
            } else {
                0
            }
        } else if index >= 0xFE0 {
            let id = (index - 0xFE0) / 4;
            if id == 0 {
                0x11
            } else if id == 1 {
                0x11
            } else if id == 2 {
                0x14
            } else if id == 3 {
                0x00
            } else if id == 4 {
                0x0D
            } else if id == 5 {
                0xF0
            } else if id == 6 {
                0x05
            } else {
                0xB1
            }
        } else {
            0
        }
    }

    /// Write a register byte. Control writes that switch the enable bit on
    /// move the state machine to sync and request an LCD event; switching it
    /// off requests clearing the event. Palette writes convert the changed
    /// entry to BGR565 and RGB565.
    pub fn write(&mut self, addr: u32, value: u8)
        ensures
            final(self)@ == old(self)@.written(addr, value),
    {
        let index = addr & 0xFFF;
        let bit_offset = lane_of(addr);
        proof {
            lemma_mask_facts();
        }
        if index < 0x200 {
            let reg = index & 0xFFC;
            let mask = 0xFFu32 << bit_offset;
            let shifted = (value as u32) << bit_offset;
            if reg <= 0x0C {
                assert((reg >> 2u32) <= 3);
                let i = (reg >> 2) as usize;
                self.timing[i] = (self.timing[i] & !mask) | (shifted & mask);
            } else if reg == 0x10 {
                self.upbase = ((self.upbase & !mask) | (shifted & mask)) & !7u32;
            } else if reg == 0x14 {
                self.lpbase = ((self.lpbase & !mask) | (shifted & mask)) & !7u32;
            } else if reg == 0x18 {
                let old_control = self.control;
                self.control = (self.control & !mask) | (shifted & mask);
                if (self.control ^ old_control) & CTRL_ENABLE != 0 {
                    if self.control & CTRL_ENABLE != 0 {
                        self.compare = LcdCompare::Sync;
                        self.needs_lcd_event = true;
                    } else {
                        self.needs_lcd_clear = true;
                    }
                }
            } else if reg == 0x1C && bit_offset == 0 {
                self.imsc = (self.imsc & !0x1Eu8) | (value & 0x1E);
            } else if reg == 0x28 && bit_offset == 0 {
                self.ris = self.ris & !(value & 0x1E);
            }
        } else if index < 0x400 {
            let p = (index - 0x200) as usize;
            if self.palette[p] != value {
                self.palette[p] = value;
                let entry = p / 2;
                let lo = self.palette[entry * 2] as u16;
                let hi = self.palette[entry * 2 + 1] as u16;
                let color = lo | (hi << 8u16);
                let bgr565 = color.wrapping_add(color & 0xFFE0).wrapping_add((color >> 10u16) & 0x0020);
                self.palette_bgr565[entry] = bgr565;
                let diff = (bgr565 ^ (bgr565 >> 11u16)) & 0x1F;
                self.palette_rgb565[entry] = bgr565 ^ diff ^ (diff << 11u16);
            }
        } else if index >= 0x800 && index < 0xC00 {
            self.cursor_image[(index - 0x800) as usize] = value;
        } else if index >= 0xC00 && index < 0xE00 {
            let r = index & 0xFFC;
            let mask = 0xFFu32 << bit_offset;
            let shifted = (value as u32) << bit_offset;
            if r == 0xC00 && bit_offset == 0 {
                self.crsr_control = value & 1;
                self.crsr_image = (value >> 4u8) & 3;
            } else if r == 0xC04 && bit_offset == 0 {
                self.crsr_config = value & 3;
            } else if r == 0xC08 && bit_offset < 24 {
                self.crsr_palette0 = (self.crsr_palette0 & !mask) | (shifted & mask);
            } else if r == 0xC0C && bit_offset < 24 {
                self.crsr_palette1 = (self.crsr_palette1 & !mask) | (shifted & mask);
            } else if r == 0xC10 {
                self.crsr_xy = ((self.crsr_xy & !mask) | (shifted & mask)) & 0x0FFF0FFF;
            } else if r == 0xC14 {
                self.crsr_clip = ((self.crsr_clip & !mask) | (shifted & mask)) & 0x003F003F;
            } else if r == 0xC20 && bit_offset == 0 {
                self.imsc = (self.imsc & !1u8) | (value & 1);
            } else if r == 0xC24 && bit_offset == 0 {
                self.ris = self.ris & !(value & 1);
            }
        }
        assert(self@ =~= old(self)@.written(addr, value));
    }

    /// Set the control register directly (state restore).
    pub fn set_control(&mut self, value: u32)
        ensures
            final(self)@ == (LcdState { control: value, ..old(self)@ }),
    {
        self.control = value;
    }

    /// Set UPBASE directly (state restore).
    pub fn set_upbase(&mut self, value: u32)
        ensures
            final(self)@ == (LcdState { upbase: value, ..old(self)@ }),
    {
        self.upbase = value;
    }

    /// Set the interrupt mask directly (low byte).
    pub fn set_int_mask(&mut self, value: u32)
        ensures
            final(self)@ == (LcdState { imsc: value as u8, ..old(self)@ }),
    {
        self.imsc = value as u8;
    }

    /// Set the raw interrupt status directly (low byte).
    pub fn set_int_status(&mut self, value: u32)
        ensures
            final(self)@ == (LcdState { ris: value as u8, ..old(self)@ }),
    {
        self.ris = value as u8;
    }

    /// The number of the DMA compare state (0-4), for snapshots.
    pub fn compare_state(&self) -> (r: u8)
        ensures
            r == compare_code(self.compare),
    {
        match self.compare {
            LcdCompare::FrontPorch => 0,
            LcdCompare::Sync => 1,
            LcdCompare::Lnbu => 2,
            LcdCompare::BackPorch => 3,
            LcdCompare::ActiveVideo => 4,
        }
    }

    /// Set the DMA compare state from its number (5 and above: active video).
    pub fn set_compare_state(&mut self, state: u8)
        ensures
            final(self)@ == (LcdState { compare: compare_of(state), ..old(self)@ }),
    {
        self.compare = match state {
            0 => LcdCompare::FrontPorch,
            1 => LcdCompare::Sync,
            2 => LcdCompare::Lnbu,
            3 => LcdCompare::BackPorch,
            _ => LcdCompare::ActiveVideo,
        };
    }

    /// Set the timing registers directly (state restore).
    pub fn set_timing(&mut self, timing: [u32; 4])
        ensures
            final(self)@ == (LcdState { timing: timing@, ..old(self)@ }),
    {
        self.timing = timing;
    }

    /// Set UPCURR directly (state restore).
    pub fn set_upcurr(&mut self, value: u32)
        ensures
            final(self)@ == (LcdState { upcurr: value, ..old(self)@ }),
    {
        self.upcurr = value;
    }

    pub fn cur_row(&self) -> (r: u32)
        ensures
            r == self.cur_row,
    {
        self.cur_row
    }

    pub fn set_cur_row(&mut self, value: u32)
        ensures
            final(self)@ == (LcdState { cur_row: value, ..old(self)@ }),
    {
        self.cur_row = value;
    }

    pub fn cur_col(&self) -> (r: u32)
        ensures
            r == self.cur_col,
    {
        self.cur_col
    }

    pub fn set_cur_col(&mut self, value: u32)
        ensures
            final(self)@ == (LcdState { cur_col: value, ..old(self)@ }),
    {
        self.cur_col = value;
    }

    pub fn prefill(&self) -> (r: bool)
        ensures
            r == self.prefill,
    {
        self.prefill
    }

    pub fn set_prefill(&mut self, value: bool)
        ensures
            final(self)@ == (LcdState { prefill: value, ..old(self)@ }),
    {
        self.prefill = value;
    }

    pub fn pos(&self) -> (r: u8)
        ensures
            r == self.pos,
    {
        self.pos
    }

    pub fn set_pos(&mut self, value: u8)
        ensures
            final(self)@ == (LcdState { pos: value, ..old(self)@ }),
    {
        self.pos = value;
    }

    pub fn upcurr(&self) -> (r: u32)
        ensures
            r == self.upcurr,
    {
        self.upcurr
    }

    /// Re-derive the timing parameters from the timing registers (after a
    /// state restore).
    pub fn recompute_timing(&mut self)
        ensures
            final(self)@ == old(self)@.extracted(),
            final(self)@.bounded(),
    {
        self.extract_timing();
    }

    pub fn palette_bgr565(&self) -> (r: &[u16; 256])
        ensures
            *r == self.palette_bgr565,
    {
        &self.palette_bgr565
    }

    pub fn palette_rgb565(&self) -> (r: &[u16; 256])
        ensures
            *r == self.palette_rgb565,
    {
        &self.palette_rgb565
    }

    pub fn set_palette_bgr565(&mut self, data: &[u16; 256])
        ensures
            final(self)@ == (LcdState { palette_bgr565: data@, ..old(self)@ }),
    {
        self.palette_bgr565 = *data;
    }

    pub fn set_palette_rgb565(&mut self, data: &[u16; 256])
        ensures
            final(self)@ == (LcdState { palette_rgb565: data@, ..old(self)@ }),
    {
        self.palette_rgb565 = *data;
    }

    /// Rebuild the raw 1555 palette bytes from the BGR565 table (after a
    /// state restore, which saves only the converted tables). Converting a
    /// rebuilt entry gives the table entry back (`lemma_palette_round_trip`).
    pub fn reconstruct_raw_palette(&mut self)
        ensures
            final(self)@ == (LcdState {
                palette: rebuilt_palette(old(self).palette_bgr565@),
                ..old(self)@
            }),
    {
        let mut entry: usize = 0;
        while entry < 256
            invariant
                entry <= 256,
                self.palette_bgr565 == old(self).palette_bgr565,
                forall|i: int|
                    0 <= i < 2 * entry ==> #[trigger] self.palette[i] == rebuilt_palette(
                        old(self).palette_bgr565@,
                    )[i],
                self@ == (LcdState { palette: self.palette@, ..old(self)@ }),
            decreases 256 - entry,
        {
            let bgr565 = self.palette_bgr565[entry];
            let r = bgr565 & 0x1F;
            let g6 = (bgr565 >> 5u16) & 0x3F;
            let b = (bgr565 >> 11u16) & 0x1F;
            let color = (b << 10u16) | ((g6 >> 1u16) << 5u16) | r | ((g6 & 1) << 15u16);
            self.palette[entry * 2] = color as u8;
            self.palette[entry * 2 + 1] = (color >> 8u16) as u8;
            entry = entry + 1;
        }
        assert(self.palette@ =~= rebuilt_palette(old(self).palette_bgr565@));
    }

    pub fn cursor_image(&self) -> (r: &[u8; 1024])
        ensures
            *r == self.cursor_image,
    {
        &self.cursor_image
    }

    pub fn set_cursor_image(&mut self, data: &[u8; 1024])
        ensures
            final(self)@ == (LcdState { cursor_image: data@, ..old(self)@ }),
    {
        self.cursor_image = *data;
    }

    /// The cursor registers packed for a snapshot: control | image << 4 |
    /// config << 8, palette 0, palette 1, position, clip.
    pub fn crsr_registers(&self) -> (r: [u32; 5])
        ensures
            r@ == self@.crsr_words(),
    {
        let r = [
            (self.crsr_control as u32) | ((self.crsr_image as u32) << 4u32) | ((self.crsr_config as u32) << 8u32),
            self.crsr_palette0,
            self.crsr_palette1,
            self.crsr_xy,
            self.crsr_clip,
        ];
        assert(r@ =~= self@.crsr_words());
        r
    }

    /// Restore the cursor registers from a snapshot, masking each field.
    pub fn set_crsr_registers(&mut self, regs: &[u32; 5])
        ensures
            final(self)@ == (LcdState {
                crsr_control: (regs[0] & 1) as u8,
                crsr_image: ((regs[0] >> 4u32) & 3) as u8,
                crsr_config: ((regs[0] >> 8u32) & 3) as u8,
                crsr_palette0: regs[1],
                crsr_palette1: regs[2],
                crsr_xy: regs[3] & 0x0FFF0FFF,
                crsr_clip: regs[4] & 0x003F003F,
                ..old(self)@
            }),
    {
        self.crsr_control = (regs[0] & 1) as u8;
        self.crsr_image = ((regs[0] >> 4) & 3) as u8;
        self.crsr_config = ((regs[0] >> 8) & 3) as u8;
        self.crsr_palette0 = regs[1];
        self.crsr_palette1 = regs[2];
        self.crsr_xy = regs[3] & 0x0FFF0FFF;
        self.crsr_clip = regs[4] & 0x003F003F;
    }
}

impl Default for LcdController {
    fn default() -> (r: Self)
        ensures
            r@ == LcdState::initial(),
    {
        Self::new()
    }
}

/// Converting the 1555 color rebuilt from a BGR565 color gives that color
/// back, for every BGR565 color.
pub proof fn lemma_palette_round_trip(bgr: u16)
    ensures
        bgr565_of(raw1555_of(bgr)) == bgr,
{
    let raw = raw1555_of(bgr);
    assert(bgr565_of(raw) == ((raw as u32 + (raw & 0xFFE0) as u32 + ((raw >> 10u16) & 0x0020)
        as u32) % 0x10000) as u16);
    assert(((raw as u32 + (raw & 0xFFE0) as u32 + ((raw >> 10u16) & 0x0020) as u32) % 0x10000)
        as u16 == bgr) by (bit_vector)
        requires
            raw == (((bgr >> 11u16) & 0x1F) << 10u16) | (((((bgr >> 5u16) & 0x3F) >> 1u16)
                << 5u16)) | (bgr & 0x1F) | ((((bgr >> 5u16) & 0x3F) & 1) << 15u16),
    ;
}

/// After the raw palette is rebuilt from a BGR565 table, the two bytes that
/// register reads return for each entry (at 0x200 + 2e and 0x201 + 2e)
/// convert back to that entry of the table.
pub proof fn lemma_rebuilt_palette_reads_back(s: LcdState, e: int)
    requires
        s.palette_bgr565.len() == 256,
        s.palette == rebuilt_palette(s.palette_bgr565),
        0 <= e < 256,
    ensures
        bgr565_of(
            ((s.register_byte((0x200 + 2 * e) as u32) as u16) | ((s.register_byte(
                (0x201 + 2 * e) as u32,
            ) as u16) << 8u16)) as u16,
        ) == s.palette_bgr565[e],
{
    let lo = (0x200 + 2 * e) as u32;
    let hi = (0x201 + 2 * e) as u32;
    let c = raw1555_of(s.palette_bgr565[e]);
    assert(lo & 0xFFF == lo && hi & 0xFFF == hi && ((c as u8) as u16 | (((c >> 8u16) as u8)
        as u16) << 8u16) == c) by (bit_vector)
        requires
            0x200 <= lo < 0x400,
            hi == lo + 1,
    ;
    assert(s.palette[2 * e] == c as u8);
    assert(s.palette[2 * e + 1] == (c >> 8u16) as u8);
    lemma_palette_round_trip(s.palette_bgr565[e]);
}

/// RGB565 is BGR565 with the red and blue fields exchanged and green kept.
pub proof fn lemma_rgb_swaps_red_blue(bgr: u16)
    ensures
        rgb565_of(bgr) >> 11u16 == bgr & 0x1F,
        rgb565_of(bgr) & 0x1F == bgr >> 11u16,
        (rgb565_of(bgr) >> 5u16) & 0x3F == (bgr >> 5u16) & 0x3F,
{
    assert(((bgr ^ ((bgr ^ (bgr >> 11u16)) & 0x1F) ^ (((bgr ^ (bgr >> 11u16)) & 0x1F) << 11u16))
        >> 11u16 == bgr & 0x1F) && ((bgr ^ ((bgr ^ (bgr >> 11u16)) & 0x1F) ^ (((bgr ^ (bgr
        >> 11u16)) & 0x1F) << 11u16)) & 0x1F == bgr >> 11u16) && (((bgr ^ ((bgr ^ (bgr >> 11u16))
        & 0x1F) ^ (((bgr ^ (bgr >> 11u16)) & 0x1F) << 11u16)) >> 5u16) & 0x3F == (bgr >> 5u16)
        & 0x3F)) by (bit_vector);
}

/// The panel base addresses stay 8-byte aligned whatever byte is written.
pub proof fn lemma_base_aligned(s: LcdState, addr: u32, v: u8)
    requires
        (addr & 0xFFF) & 0xFFC == 0x10 || (addr & 0xFFF) & 0xFFC == 0x14,
    ensures
        (addr & 0xFFF) & 0xFFC == 0x10 ==> s.written(addr, v).upbase & 7 == 0,
        (addr & 0xFFF) & 0xFFC == 0x14 ==> s.written(addr, v).lpbase & 7 == 0,
{
    let x = addr & 0xFFF;
    assert(x & 0xFFC == 0x10 || x & 0xFFC == 0x14 ==> x < 0x200) by (bit_vector)
        requires
            x == addr & 0xFFF,
    ;
    let a = merge(s.upbase, lane(addr), v);
    let b = merge(s.lpbase, lane(addr), v);
    assert((a & !7u32) & 7 == 0 && (b & !7u32) & 7 == 0) by (bit_vector);
}

/// Writing the interrupt clear register clears exactly the written bits
/// 4:1 of the raw status.
pub proof fn lemma_icr_clears(s: LcdState, v: u8)
    ensures
        s.written(0x28, v).ris == s.ris & !(v & 0x1E),
{
    assert((0x28u32 & 0xFFF) == 0x28 && (0x28u32 & 0xFFC) == 0x28 && ((0x28u32 & 3) * 8) as u32
        == 0) by (bit_vector);
}

/// Switching the enable bit on moves the state machine to sync and asks for
/// an LCD event to be scheduled.
pub proof fn lemma_enable_starts_sync(s: LcdState, v: u8)
    requires
        s.control & 1 == 0,
        v & 1 == 1,
    ensures
        s.written(0x18, v).compare == LcdCompare::Sync,
        s.written(0x18, v).needs_lcd_event,
        s.written(0x18, v).control & 1 == 1,
{
    let c = s.control;
    let m = (c & !(0xFFu32 << 0u32)) | (((v as u32) << 0u32) & (0xFFu32 << 0u32));
    assert((0x18u32 & 0xFFF) == 0x18 && (0x18u32 & 0xFFC) == 0x18 && ((0x18u32 & 3) * 8) as u32
        == 0 && (m & 1 == 1 && (m ^ c) & 1 != 0)) by (bit_vector)
        requires
            c & 1 == 0,
            v & 1 == 1,
            m == (c & !(0xFFu32 << 0u32)) | (((v as u32) << 0u32) & (0xFFu32 << 0u32)),
    ;
}

/// Fast-forwarding a state with derived timing (bounded parameters, the
/// column inside the line) is always possible, and moves the position on by
/// exactly the pixels of the events taken: `k` events, `k` the requested
/// count or, if fewer, the events left in the frame, advance the pixel
/// position (row times clocks per line plus column) by `k` times the pixels
/// per event, leave the column inside the line, and advance UPCURR by `k`
/// FIFO fills. Nothing moves during the prefill, for a zero count or a zero
/// line length.
pub proof fn lemma_fast_forward_position(s: LcdState, count: u64)
    requires
        s.bounded(),
        s.cur_col < s.cpl,
    ensures
        s.ff_ok(count),
        s.prefill || count == 0 || s.cpl == 0 ==> s.fast_forwarded(count) == s,
        !(s.prefill || count == 0 || s.cpl == 0) ==> {
            let t = s.fast_forwarded(count);
            let k = s.ff_events(count);
            &&& t.cur_row * s.cpl + t.cur_col == s.cur_row * s.cpl + s.cur_col + k
                * s.dma_pixels()
            &&& t.cur_col < s.cpl
            &&& t.upcurr == vstd::wrapping::u32_specs::wrapping_add(
                s.upcurr,
                (k * s.fill_bytes()) as u32,
            )
        },
{
    let ppe = s.dma_pixels() as int;
    let sh = (5 - s.bpp) as u32;
    let w: u32 = if s.wtrmrk != 0 { 16 } else { 8 };
    assert(8 <= w << sh <= 512) by (bit_vector)
        requires
            w == 8 || w == 16,
            sh <= 5,
    ;
    assert(ppe == (w << sh) as int);
    let n = s.ff_events(count);
    let cpl = s.cpl as int;
    let remaining: int = if s.cur_row < s.lpp {
        (s.lpp - s.cur_row) * cpl - s.cur_col
    } else {
        0
    };
    assert(0 <= remaining <= 1024 * 1024) by (nonlinear_arith)
        requires
            remaining == (if s.cur_row < s.lpp {
                (s.lpp - s.cur_row) * cpl - s.cur_col
            } else {
                0
            }),
            s.lpp <= 1024,
            0 <= s.cur_col < cpl <= 1024,
    ;
    if n != 0 {
        assert(remaining > 0 && s.cur_row < s.lpp);
        assert(n * ppe <= remaining + ppe && n <= remaining) by (nonlinear_arith)
            requires
                0 < n <= (remaining + ppe - 1) / ppe,
                8 <= ppe,
                remaining > 0,
        ;
        assert(n * s.fill_bytes() <= 64 * 1024 * 1024) by (nonlinear_arith)
            requires
                n <= 1024 * 1024,
                s.fill_bytes() <= 64,
        ;
        let new_abs = s.cur_col + n * ppe;
        assert(new_abs / cpl <= new_abs) by (nonlinear_arith)
            requires
                cpl >= 1,
                new_abs >= 0,
        ;
        if !(s.prefill || count == 0 || s.cpl == 0) {
            let t = s.fast_forwarded(count);
            vstd::arithmetic::div_mod::lemma_fundamental_div_mod(new_abs, cpl);
            let q = new_abs / cpl;
            let r = new_abs % cpl;
            assert(t.cur_row == s.cur_row + q && t.cur_col == r);
            assert((s.cur_row + q) * cpl + r == s.cur_row * cpl + new_abs) by (nonlinear_arith)
                requires
                    new_abs == cpl * q + r,
            ;
            assert(0 <= r < cpl);
        }
    } else {
        assert(n * s.dma_pixels() == 0 && n * s.fill_bytes() == 0) by (nonlinear_arith)
            requires
                n == 0,
        ;
        assert(vstd::wrapping::u32_specs::wrapping_add(s.upcurr, 0u32) == s.upcurr);
    }
}

/// A prefill that starts from FIFO position 0 takes four DMA events: it then
/// ends with UPCURR 256 bytes past UPBASE.
pub proof fn lemma_prefill_four_fills(s: LcdState)
    requires
        s.prefill,
        s.pos == 0,
    ensures
        s.dma().0.dma().0.dma().0.dma().0.upcurr == vstd::wrapping::u32_specs::wrapping_add(
            vstd::wrapping::u32_specs::wrapping_add(
                vstd::wrapping::u32_specs::wrapping_add(
                    vstd::wrapping::u32_specs::wrapping_add(s.upbase, 64),
                    64,
                ),
                64,
            ),
            64,
        ),
        !s.dma().0.dma().0.dma().0.dma().0.prefill,
        s.dma().0.dma().0.dma().0.dma().0.pos == 0,
        s.dma().0.prefill && s.dma().0.dma().0.prefill && s.dma().0.dma().0.dma().0.prefill,
        s.dma().0.dma().1 == Some(22u64),
{
}

} // verus!
