//! Memory-mapped peripheral controllers of the TI-84 Plus CE:
//! - control ports (0xE00000, 0xFF0000)
//! - flash controller (0xE10000)
//! - SHA-256 accelerator (0xE20000)
//! - LCD controller (0xE30000)
//! - interrupt controller (0xF00000)
//! - timers (0xF20000)
//! - keypad controller (0xF50000)
//! - watchdog timer (0xF60000)
//! - real-time clock (0xF80000)
//! - backlight controller (0xFB0000)

pub mod backlight;
pub mod interrupt;
pub mod control;
pub mod flash;
pub mod timer;
pub mod keypad;
pub mod lcd;
pub mod rtc;
pub mod sha256;
pub mod spi;
pub mod watchdog;
pub mod snapshot;

pub use backlight::Backlight;
pub use control::ControlPorts;
pub use flash::FlashController;
pub use interrupt::InterruptController;
pub use keypad::{KeypadController, KEYPAD_COLS, KEYPAD_ROWS};
pub use lcd::{LcdController, LCD_HEIGHT, LCD_WIDTH};
pub use rtc::RtcController;
pub use sha256::Sha256Controller;
pub use spi::SpiController;
pub use timer::GeneralTimers;
pub use watchdog::WatchdogController;

use vstd::prelude::*;
use crate::bits::{byte_at, lane};
use crate::peripherals::interrupt::sources;
use crate::peripherals::keypad::{KeypadState, any_pressed, MODE_SINGLE, MODE_CONTINUOUS};
use crate::peripherals::lcd::LcdState;
use crate::peripherals::sha256::{register_view, block_written, state_written};

verus! {

/// Control ports (offsets from 0xE00000).
pub const CONTROL_BASE: u32 = 0x000000;

pub const CONTROL_END: u32 = 0x000100;

/// Flash controller.
pub const FLASH_BASE: u32 = 0x010000;

pub const FLASH_END: u32 = 0x010100;

/// SHA-256 accelerator.
pub const SHA256_BASE: u32 = 0x020000;

pub const SHA256_END: u32 = 0x020100;

/// Control ports, alternate window (0xFF0000, reached with OUT0/IN0).
pub const CONTROL_ALT_BASE: u32 = 0x1F0000;

pub const CONTROL_ALT_END: u32 = 0x1F0100;

/// LCD controller, including the palette and the peripheral ID.
pub const LCD_BASE: u32 = 0x030000;

pub const LCD_END: u32 = 0x031000;

/// Interrupt controller.
pub const INT_BASE: u32 = 0x100000;

pub const INT_END: u32 = 0x100020;

/// General-purpose timers.
pub const TIMER_BASE: u32 = 0x120000;

pub const TIMER_END: u32 = 0x120040;

/// Keypad controller, up to the GPIO status register.
pub const KEYPAD_BASE: u32 = 0x150000;

pub const KEYPAD_END: u32 = 0x150048;

/// Watchdog timer.
pub const WATCHDOG_BASE: u32 = 0x160000;

pub const WATCHDOG_END: u32 = 0x160100;

/// Real-time clock.
pub const RTC_BASE: u32 = 0x180000;

pub const RTC_END: u32 = 0x180100;

/// Backlight controller.
pub const BACKLIGHT_BASE: u32 = 0x1B0000;

pub const BACKLIGHT_END: u32 = 0x1B0100;

/// The peripheral subsystem: every controller, the storage behind unmapped
/// ports, the key matrix and the OS timer.
#[derive(Debug, Clone)]
pub struct Peripherals {
    pub control: ControlPorts,
    pub flash: FlashController,
    pub interrupt: InterruptController,
    pub timers: GeneralTimers,
    pub lcd: LcdController,
    pub keypad: KeypadController,
    pub watchdog: WatchdogController,
    pub rtc: RtcController,
    pub sha256: Sha256Controller,
    pub backlight: Backlight,
    /// Storage for unmapped ports.
    pub fallback: Vec<u8>,
    /// Key matrix (row, column), set by the emulator.
    pub key_state: [[bool; 8]; 8],
    /// OS timer output level.
    pub os_timer_state: bool,
    /// CPU cycles accumulated toward the next OS timer toggle.
    pub os_timer_cycles: u64,
}

/// The state of the peripheral subsystem.
#[verifier::ext_equal]
pub struct PeripheralsView {
    pub control: ControlPorts,
    pub flash: FlashController,
    pub interrupt: InterruptController,
    pub timers: GeneralTimers,
    pub lcd: LcdState,
    pub keypad: KeypadState,
    pub watchdog: WatchdogController,
    pub rtc: RtcController,
    pub sha_block: Seq<u32>,
    pub sha_state: Seq<u32>,
    pub sha_last: u16,
    pub brightness: u8,
    pub fallback: Seq<u8>,
    pub key_state: [[bool; 8]; 8],
    pub os_timer_state: bool,
    pub os_timer_cycles: u64,
}

impl View for Peripherals {
    type V = PeripheralsView;

    open spec fn view(&self) -> PeripheralsView {
        PeripheralsView {
            control: self.control,
            flash: self.flash,
            interrupt: self.interrupt,
            timers: self.timers,
            lcd: self.lcd@,
            keypad: self.keypad@,
            watchdog: self.watchdog,
            rtc: self.rtc,
            sha_block: self.sha256.block@,
            sha_state: self.sha256.state@,
            sha_last: self.sha256.last,
            brightness: self.backlight.brightness,
            fallback: self.fallback@,
            key_state: self.key_state,
            os_timer_state: self.os_timer_state,
            os_timer_cycles: self.os_timer_cycles,
        }
    }
}

/// No key of the matrix is held.
pub open spec fn all_released(k: [[bool; 8]; 8]) -> bool {
    forall|r: int, c: int| 0 <= r < 8 && 0 <= c < 8 ==> !#[trigger] k[r][c]
}

/// Key matrix `new` is `old` with key (`row`, `col`) set to `pressed`.
pub open spec fn key_updated(
    old: [[bool; 8]; 8],
    new: [[bool; 8]; 8],
    row: int,
    col: int,
    pressed: bool,
) -> bool {
    forall|r: int, c: int|
        0 <= r < 8 && 0 <= c < 8 ==> #[trigger] new[r][c] == (if r == row && c == col {
            pressed
        } else {
            old[r][c]
        })
}

/// Bytes of storage behind unmapped ports.
pub open spec fn fallback_size() -> int {
    0x200000
}

/// CPU cycles per 32 kHz tick at a CPU speed setting (0-3).
pub open spec fn cycles_per_32k(speed: int) -> u64 {
    if speed == 0 {
        183
    } else if speed == 1 {
        366
    } else if speed == 2 {
        732
    } else {
        1464
    }
}

/// OS timer low phase, in 32 kHz ticks, at a CPU speed setting (0-3).
pub open spec fn os_low_ticks(speed: int) -> u64 {
    if speed == 0 {
        73
    } else if speed == 1 {
        153
    } else if speed == 2 {
        217
    } else {
        313
    }
}

/// The interrupt lines of the three timers copied into the controller.
pub open spec fn timer_irqs_synced(ic: InterruptController, t: GeneralTimers) -> InterruptController {
    ic.with_source(sources::TIMER1, t.timer_interrupt(0)).with_source(
        sources::TIMER2,
        t.timer_interrupt(1),
    ).with_source(sources::TIMER3, t.timer_interrupt(2))
}

/// The OS timer toggles while enough cycles are accumulated: the interrupt
/// line takes the level before each toggle. Returns the interrupt
/// controller, the level and the cycles left.
pub open spec fn os_timer_run(ic: InterruptController, level: bool, acc: u64, speed: int) -> (
    InterruptController,
    bool,
    u64,
)
    decreases acc,
{
    let needed = (if level {
        1
    } else {
        os_low_ticks(speed)
    }) * cycles_per_32k(speed);
    if acc < needed || needed == 0 {
        (ic, level, acc)
    } else {
        os_timer_run(ic.with_source(sources::OSTIMER, level), !level, (acc - needed) as u64, speed)
    }
}

impl PeripheralsView {
    /// Every part holds its internal invariant, and the unmapped-port storage
    /// has its full size.
    pub open spec fn wf(self) -> bool {
        &&& self.flash.wf()
        &&& self.rtc.wf()
        &&& self.keypad.wf()
        &&& self.lcd.wf()
        &&& self.sha_block.len() == 16
        &&& self.sha_state.len() == 8
        &&& self.fallback.len() == fallback_size()
    }

    /// The byte a read at port offset `addr` returns.
    pub open spec fn read_byte(self, addr: u32) -> u8 {
        if addr < CONTROL_END {
            self.control.port(addr)
        } else if FLASH_BASE <= addr < FLASH_END {
            self.flash.register((addr - FLASH_BASE) as u32)
        } else if SHA256_BASE <= addr < SHA256_END {
            register_view(self.sha_block, self.sha_state, (addr - SHA256_BASE) as u32)
        } else if CONTROL_ALT_BASE <= addr < CONTROL_ALT_END {
            self.control.port((addr - CONTROL_ALT_BASE) as u32)
        } else if LCD_BASE <= addr < LCD_END {
            self.lcd.register_byte((addr - LCD_BASE) as u32)
        } else if INT_BASE <= addr < INT_END {
            let a = (addr - INT_BASE) as u32;
            byte_at(self.interrupt.register(a), lane(a))
        } else if TIMER_BASE <= addr < TIMER_END {
            let a = (addr - TIMER_BASE) as u32;
            byte_at(self.timers.register(a), lane(a))
        } else if KEYPAD_BASE <= addr < KEYPAD_END {
            self.keypad.register_byte((addr - KEYPAD_BASE) as u32)
        } else if WATCHDOG_BASE <= addr < WATCHDOG_END {
            self.watchdog.register_byte((addr - WATCHDOG_BASE) as u32)
        } else if RTC_BASE <= addr < RTC_END {
            self.rtc.register_byte((addr - RTC_BASE) as u32)
        } else if BACKLIGHT_BASE <= addr < BACKLIGHT_END {
            if addr - BACKLIGHT_BASE == 0x24 {
                self.brightness
            } else {
                0
            }
        } else {
            self.fallback[addr as int % fallback_size()]
        }
    }

    /// The keypad after a register write, with the any-key check it may ask
    /// for carried out and its interrupt line updated.
    pub open spec fn keypad_written(self, a: u32, value: u8) -> Self {
        let k = self.keypad.written(a, value);
        if k.needs_any_key_check {
            let (k2, irq) = KeypadState { needs_any_key_check: false, ..k }.any_checked(
                self.key_state,
            );
            PeripheralsView {
                keypad: k2,
                interrupt: self.interrupt.with_source(sources::KEYPAD, irq),
                ..self
            }
        } else {
            PeripheralsView { keypad: k, ..self }
        }
    }

    /// The state after a write of `value` at port offset `addr`.
    pub open spec fn written(self, addr: u32, value: u8) -> Self {
        if addr < CONTROL_END {
            PeripheralsView { control: self.control.written(addr, value), ..self }
        } else if FLASH_BASE <= addr < FLASH_END {
            PeripheralsView {
                flash: self.flash.registers_written((addr - FLASH_BASE) as u32, value).cached(),
                ..self
            }
        } else if SHA256_BASE <= addr < SHA256_END {
            let a = (addr - SHA256_BASE) as u32;
            PeripheralsView {
                sha_block: block_written(self.sha_block, a, value),
                sha_state: state_written(self.sha_state, self.sha_block, a, value),
                ..self
            }
        } else if CONTROL_ALT_BASE <= addr < CONTROL_ALT_END {
            PeripheralsView {
                control: self.control.written((addr - CONTROL_ALT_BASE) as u32, value),
                ..self
            }
        } else if LCD_BASE <= addr < LCD_END {
            PeripheralsView { lcd: self.lcd.written((addr - LCD_BASE) as u32, value), ..self }
        } else if INT_BASE <= addr < INT_END {
            PeripheralsView {
                interrupt: self.interrupt.written((addr - INT_BASE) as u32, value),
                ..self
            }
        } else if TIMER_BASE <= addr < TIMER_END {
            let t = self.timers.written((addr - TIMER_BASE) as u32, value);
            PeripheralsView {
                timers: t,
                interrupt: timer_irqs_synced(self.interrupt, t),
                ..self
            }
        } else if KEYPAD_BASE <= addr < KEYPAD_END {
            self.keypad_written((addr - KEYPAD_BASE) as u32, value)
        } else if WATCHDOG_BASE <= addr < WATCHDOG_END {
            PeripheralsView {
                watchdog: self.watchdog.written((addr - WATCHDOG_BASE) as u32, value),
                ..self
            }
        } else if RTC_BASE <= addr < RTC_END {
            PeripheralsView { rtc: self.rtc.written((addr - RTC_BASE) as u32, value), ..self }
        } else if BACKLIGHT_BASE <= addr < BACKLIGHT_END {
            let o = addr - BACKLIGHT_BASE;
            PeripheralsView {
                brightness: if o == 0x24 {
                    value
                } else if (o == 0x21 || o == 0x22 || o == 0x25 || o == 0x26) && value != 0 {
                    0
                } else {
                    self.brightness
                },
                ..self
            }
        } else {
            PeripheralsView {
                fallback: self.fallback.update(addr as int % fallback_size(), value),
                ..self
            }
        }
    }

    /// The state after `cycles` CPU cycles: the timers advance and their
    /// interrupt lines are synced, the keypad scans and its line follows the
    /// scan and the held keys, and the OS timer runs.
    pub open spec fn ticked(self, cycles: u32) -> Self {
        let speed = self.control.cpu_speed & 3;
        let (t, _fired) = self.timers.ticked(cycles, speed);
        let ic1 = timer_irqs_synced(self.interrupt, t);
        let (k, scan_irq) = self.keypad.run(cycles, self.key_state);
        let any_irq = (k.mode() == MODE_SINGLE || k.mode() == MODE_CONTINUOUS) && any_pressed(
            self.key_state,
        );
        let ic2 = ic1.with_source(sources::KEYPAD, scan_irq || any_irq);
        let (ic3, level, acc) = os_timer_run(
            ic2,
            self.os_timer_state,
            (self.os_timer_cycles + cycles) as u64,
            speed as int,
        );
        PeripheralsView {
            timers: t,
            keypad: k,
            interrupt: ic3,
            os_timer_state: level,
            os_timer_cycles: acc,
            ..self
        }
    }
}

impl Peripherals {
    /// Bytes of storage behind unmapped ports.
    pub const FALLBACK_SIZE: usize = 0x200000;

    /// OS timer low phase in 32 kHz ticks per CPU speed setting.
    pub const OS_TIMER_TICKS: [u32; 4] = [73, 153, 217, 313];

    /// The 32 kHz crystal frequency.
    pub const CLOCK_32K: u32 = 32768;

    /// Every controller in its power-on state, no key held.
    pub fn new() -> (r: Self)
        ensures
            r@.wf(),
            r@.control == ControlPorts::initial(),
            r@.flash == FlashController::initial(),
            r@.interrupt == InterruptController::power_on(),
            r@.timers == GeneralTimers::initial(),
            r@.lcd == LcdState::initial(),
            r@.keypad == KeypadState::initial(),
            r@.watchdog == WatchdogController::initial(),
            r@.rtc == RtcController::initial(),
            r@.sha_block == Seq::new(16, |i: int| 0u32),
            r@.sha_state == Seq::new(8, |i: int| 0u32),
            r@.brightness == 0xFF,
            r@.fallback == Seq::new(0x200000, |i: int| 0u8),
            all_released(r@.key_state),
            !r@.os_timer_state,
            r@.os_timer_cycles == 0,
    {
        let fallback = vec![0x00u8; Self::FALLBACK_SIZE];
        let r = Peripherals {
            control: ControlPorts::new(),
            flash: FlashController::new(),
            interrupt: InterruptController::new(),
            timers: GeneralTimers::new(),
            lcd: LcdController::new(),
            keypad: KeypadController::new(),
            watchdog: WatchdogController::new(),
            rtc: RtcController::new(),
            sha256: Sha256Controller::new(),
            backlight: Backlight::new(),
            fallback,
            key_state: [[false; 8]; 8],
            os_timer_state: false,
            os_timer_cycles: 0,
        };
        assert(r.fallback@ =~= Seq::new(0x200000, |i: int| 0u8));
        r
    }

    /// Press or release a key: the matrix and the keypad's edge flag follow,
    /// and a press raises the keypad interrupt. Out-of-range keys are ignored.
    pub fn set_key(&mut self, row: usize, col: usize, pressed: bool)
        ensures
            row < 8 && col < 8 ==> key_updated(
                old(self)@.key_state,
                final(self)@.key_state,
                row as int,
                col as int,
                pressed,
            ),
            row < 8 && col < 8 ==> final(self)@ == (PeripheralsView {
                key_state: final(self)@.key_state,
                keypad: old(self)@.keypad.key_set(row as int, col as int, pressed),
                interrupt: if pressed {
                    old(self)@.interrupt.with_source(sources::KEYPAD, true)
                } else {
                    old(self)@.interrupt
                },
                ..old(self)@
            }),
            !(row < 8 && col < 8) ==> final(self)@ == old(self)@,
    {
        if row < KEYPAD_ROWS && col < KEYPAD_COLS {
            self.key_state[row][col] = pressed;
            self.keypad.set_key_edge(row, col, pressed);
            if pressed {
                self.interrupt.raise(sources::KEYPAD);
            }
        }
    }

    /// The key matrix.
    pub fn key_state(&self) -> (r: &[[bool; 8]; 8])
        ensures
            *r == self.key_state,
    {
        &self.key_state
    }

    /// Reset every controller except the backlight, clear the unmapped-port
    /// storage, release all keys and stop the OS timer.
    pub fn reset(&mut self)
        ensures
            final(self)@ == (PeripheralsView {
                control: ControlPorts::initial(),
                flash: FlashController::initial(),
                interrupt: InterruptController::power_on(),
                timers: GeneralTimers::initial(),
                lcd: LcdState::initial(),
                keypad: KeypadState::initial(),
                watchdog: WatchdogController::initial(),
                rtc: RtcController::initial(),
                sha_block: Seq::new(16, |i: int| 0u32),
                sha_state: Seq::new(8, |i: int| 0u32),
                sha_last: 0,
                fallback: Seq::new(0x200000, |i: int| 0u8),
                key_state: final(self)@.key_state,
                os_timer_state: false,
                os_timer_cycles: 0,
                ..old(self)@
            }),
            all_released(final(self)@.key_state),
            final(self)@.wf(),
    {
        self.control.reset();
        self.flash.reset();
        self.interrupt.reset();
        self.timers.reset();
        self.lcd.reset();
        self.keypad.reset();
        self.watchdog.reset();
        self.rtc.reset();
        self.sha256.reset();
        self.fallback = vec![0x00u8; Self::FALLBACK_SIZE];
        self.key_state = [[false; 8]; 8];
        self.os_timer_state = false;
        self.os_timer_cycles = 0;
        assert(self.fallback@ =~= Seq::new(0x200000, |i: int| 0u8));
        assert(self@ =~= PeripheralsView {
            control: ControlPorts::initial(),
            flash: FlashController::initial(),
            interrupt: InterruptController::power_on(),
            timers: GeneralTimers::initial(),
            lcd: LcdState::initial(),
            keypad: KeypadState::initial(),
            watchdog: WatchdogController::initial(),
            rtc: RtcController::initial(),
            sha_block: Seq::new(16, |i: int| 0u32),
            sha_state: Seq::new(8, |i: int| 0u32),
            sha_last: 0,
            fallback: Seq::new(0x200000, |i: int| 0u8),
            key_state: self.key_state,
            os_timer_state: false,
            os_timer_cycles: 0,
            ..old(self)@
        });
    }

    /// Read the byte at port offset `addr` (offset from 0xE00000); reads have
    /// no side effects.
    pub fn read(&mut self, addr: u32, key_state: &[[bool; 8]; 8], current_cycles: u64) -> (r: u8)
        requires
            old(self)@.wf(),
        ensures
            r == old(self)@.read_byte(addr),
            final(self)@ == old(self)@,
    {
        let cpu_speed = self.control.cpu_speed();
        if addr < CONTROL_END {
            self.control.read(addr)
        } else if addr >= FLASH_BASE && addr < FLASH_END {
            self.flash.read(addr - FLASH_BASE)
        } else if addr >= SHA256_BASE && addr < SHA256_END {
            self.sha256.read(addr - SHA256_BASE)
        } else if addr >= CONTROL_ALT_BASE && addr < CONTROL_ALT_END {
            self.control.read(addr - CONTROL_ALT_BASE)
        } else if addr >= LCD_BASE && addr < LCD_END {
            self.lcd.read(addr - LCD_BASE)
        } else if addr >= INT_BASE && addr < INT_END {
            self.interrupt.read(addr - INT_BASE)
        } else if addr >= TIMER_BASE && addr < TIMER_END {
            self.timers.read(addr - TIMER_BASE)
        } else if addr >= KEYPAD_BASE && addr < KEYPAD_END {
            self.keypad.read(addr - KEYPAD_BASE, key_state)
        } else if addr >= WATCHDOG_BASE && addr < WATCHDOG_END {
            self.watchdog.read(addr - WATCHDOG_BASE)
        } else if addr >= RTC_BASE && addr < RTC_END {
            self.rtc.read(addr - RTC_BASE, current_cycles, cpu_speed)
        } else if addr >= BACKLIGHT_BASE && addr < BACKLIGHT_END {
            self.backlight.read(addr - BACKLIGHT_BASE)
        } else {
            let offset = (addr as usize) % Self::FALLBACK_SIZE;
            self.fallback[offset]
        }
    }

    /// Copy the three timers' interrupt lines into the interrupt controller.
    fn sync_timer_interrupts(&mut self)
        ensures
            final(self)@ == (PeripheralsView {
                interrupt: timer_irqs_synced(old(self)@.interrupt, old(self)@.timers),
                ..old(self)@
            }),
    {
        let int_state = self.timers.interrupt_state();
        if int_state & 1 != 0 {
            self.interrupt.raise(sources::TIMER1);
        } else {
            self.interrupt.clear_raw(sources::TIMER1);
        }
        if int_state & 2 != 0 {
            self.interrupt.raise(sources::TIMER2);
        } else {
            self.interrupt.clear_raw(sources::TIMER2);
        }
        if int_state & 4 != 0 {
            self.interrupt.raise(sources::TIMER3);
        } else {
            self.interrupt.clear_raw(sources::TIMER3);
        }
    }

    /// Write `value` at port offset `addr` (offset from 0xE00000). A timer
    /// write re-syncs the timer interrupt lines; a keypad write that asks for
    /// an any-key check runs it and updates the keypad interrupt line.
    pub fn write(&mut self, addr: u32, value: u8, current_cycles: u64)
        requires
            old(self)@.wf(),
        ensures
            final(self)@ == old(self)@.written(addr, value),
            final(self)@.wf(),
    {
        let cpu_speed = self.control.cpu_speed();
        if addr < CONTROL_END {
            self.control.write(addr, value);
        } else if addr >= FLASH_BASE && addr < FLASH_END {
            self.flash.write(addr - FLASH_BASE, value);
        } else if addr >= SHA256_BASE && addr < SHA256_END {
            self.sha256.write(addr - SHA256_BASE, value);
        } else if addr >= CONTROL_ALT_BASE && addr < CONTROL_ALT_END {
            self.control.write(addr - CONTROL_ALT_BASE, value);
        } else if addr >= LCD_BASE && addr < LCD_END {
            self.lcd.write(addr - LCD_BASE, value);
        } else if addr >= INT_BASE && addr < INT_END {
            self.interrupt.write(addr - INT_BASE, value);
        } else if addr >= TIMER_BASE && addr < TIMER_END {
            self.timers.write(addr - TIMER_BASE, value);
            self.sync_timer_interrupts();
        } else if addr >= KEYPAD_BASE && addr < KEYPAD_END {
            let offset = addr - KEYPAD_BASE;
            self.keypad.write(offset, value);
            if self.keypad.needs_any_key_check {
                self.keypad.needs_any_key_check = false;
                let should_interrupt = self.keypad.any_key_check(&self.key_state);
                if should_interrupt {
                    self.interrupt.raise(sources::KEYPAD);
                } else {
                    self.interrupt.clear_raw(sources::KEYPAD);
                }
            }
        } else if addr >= WATCHDOG_BASE && addr < WATCHDOG_END {
            self.watchdog.write(addr - WATCHDOG_BASE, value);
        } else if addr >= RTC_BASE && addr < RTC_END {
            self.rtc.write(addr - RTC_BASE, value, current_cycles, cpu_speed);
        } else if addr >= BACKLIGHT_BASE && addr < BACKLIGHT_END {
            self.backlight.write(addr - BACKLIGHT_BASE, value);
        } else {
            let offset = (addr as usize) % Self::FALLBACK_SIZE;
            self.fallback.set(offset, value);
        }
        assert(self@ =~= old(self)@.written(addr, value));
    }

    /// Advance all peripherals by `cycles` CPU cycles: the timers count (their
    /// interrupts go through the delay pipeline) and their interrupt lines are
    /// re-synced, the keypad scans and its interrupt line follows, and the OS
    /// timer runs. Returns whether an interrupt is pending.
    /// `_delay_remaining` (cycles until the delay pipeline event) is not used.
    pub fn tick(&mut self, cycles: u32, _delay_remaining: u64) -> (r: bool)
        requires
            old(self)@.wf(),
            forall|i: int|
                0 <= i < 3 && #[trigger] old(self).timers.enabled(i) ==> old(self).timers.accum_cycles[i]
                    + cycles <= u32::MAX,
            old(self).os_timer_cycles + cycles <= u64::MAX,
        ensures
            final(self)@ == old(self)@.ticked(cycles),
            r == final(self)@.interrupt.pending(),
            final(self)@.wf(),
    {
        let cpu_speed = self.control.cpu_speed();
        self.timers.tick(cycles, cpu_speed);
        self.sync_timer_interrupts();
        let keypad_scan_irq = self.keypad.tick(cycles, &self.key_state);
        let keypad_any_irq = self.keypad.check_interrupt(&self.key_state);
        if keypad_scan_irq || keypad_any_irq {
            self.interrupt.raise(sources::KEYPAD);
        } else {
            self.interrupt.clear_raw(sources::KEYPAD);
        }
        self.tick_os_timer(cycles);
        assert(self@ =~= old(self)@.ticked(cycles));
        self.interrupt.irq_pending()
    }

    /// Run the OS timer (32 kHz crystal): it stays low for a speed-dependent
    /// number of 32 kHz ticks and high for one; at each toggle the OS timer
    /// interrupt line takes the level before the toggle.
    fn tick_os_timer(&mut self, cycles: u32)
        requires
            old(self).os_timer_cycles + cycles <= u64::MAX,
        ensures
            ({
                let (ic, level, acc) = os_timer_run(
                    old(self)@.interrupt,
                    old(self)@.os_timer_state,
                    (old(self)@.os_timer_cycles + cycles) as u64,
                    (old(self)@.control.cpu_speed & 3) as int,
                );
                final(self)@ == (PeripheralsView {
                    interrupt: ic,
                    os_timer_state: level,
                    os_timer_cycles: acc,
                    ..old(self)@
                })
            }),
    {
        let speed = (self.control.read(0x01) & 0x03) as usize;
        proof {
            crate::bits::lemma_mask_facts();
        }
        let cpu_clock: u64 = if speed == 0 {
            6_000_000
        } else if speed == 1 {
            12_000_000
        } else if speed == 2 {
            24_000_000
        } else {
            48_000_000
        };
        let cycles_per_32k_tick = cpu_clock / (Self::CLOCK_32K as u64);
        assert(cycles_per_32k_tick == cycles_per_32k(speed as int));
        self.os_timer_cycles = self.os_timer_cycles + cycles as u64;
        let ghost start = self@;
        let ghost target = os_timer_run(
            self@.interrupt,
            self@.os_timer_state,
            self@.os_timer_cycles,
            speed as int,
        );
        loop
            invariant
                speed < 4,
                cycles_per_32k_tick == cycles_per_32k(speed as int),
                os_timer_run(self@.interrupt, self@.os_timer_state, self@.os_timer_cycles, speed as int)
                    == target,
                self@ == (PeripheralsView {
                    interrupt: self@.interrupt,
                    os_timer_state: self@.os_timer_state,
                    os_timer_cycles: self@.os_timer_cycles,
                    ..start
                }),
            ensures
                (self@.interrupt, self@.os_timer_state, self@.os_timer_cycles) == target,
                self@ == (PeripheralsView {
                    interrupt: self@.interrupt,
                    os_timer_state: self@.os_timer_state,
                    os_timer_cycles: self@.os_timer_cycles,
                    ..start
                }),
            decreases self.os_timer_cycles,
        {
            let ticks_needed: u64 = if self.os_timer_state {
                1
            } else {
                Self::OS_TIMER_TICKS[speed] as u64
            };
            assert(ticks_needed == (if self.os_timer_state {
                1
            } else {
                os_low_ticks(speed as int)
            }));
            let cycles_needed = ticks_needed * cycles_per_32k_tick;
            if self.os_timer_cycles < cycles_needed {
                break;
            }
            self.os_timer_cycles = self.os_timer_cycles - cycles_needed;
            if self.os_timer_state {
                self.interrupt.raise(sources::OSTIMER);
            } else {
                self.interrupt.clear_raw(sources::OSTIMER);
            }
            self.os_timer_state = !self.os_timer_state;
        }
    }

    /// An enabled interrupt is pending.
    pub fn irq_pending(&self) -> (r: bool)
        ensures
            r == self@.interrupt.pending(),
    {
        self.interrupt.irq_pending()
    }
}

impl Default for Peripherals {
    fn default() -> (r: Self)
        ensures
            r@.wf(),
            r@.control == ControlPorts::initial(),
            r@.interrupt == InterruptController::power_on(),
    {
        Self::new()
    }
}

/// A port offset that no controller decodes (it reaches the storage for
/// unmapped ports).
pub open spec fn is_unmapped(addr: u32) -> bool {
    !(addr < CONTROL_END || (FLASH_BASE <= addr < FLASH_END) || (SHA256_BASE <= addr < SHA256_END)
        || (CONTROL_ALT_BASE <= addr < CONTROL_ALT_END) || (LCD_BASE <= addr < LCD_END) || (INT_BASE
        <= addr < INT_END) || (TIMER_BASE <= addr < TIMER_END) || (KEYPAD_BASE <= addr < KEYPAD_END)
        || (WATCHDOG_BASE <= addr < WATCHDOG_END) || (RTC_BASE <= addr < RTC_END) || (
    BACKLIGHT_BASE <= addr < BACKLIGHT_END))
}

/// A byte written to an unmapped port reads back from every unmapped port
/// that falls on the same storage byte (offsets equal modulo the storage size).
pub proof fn lemma_unmapped_write_read(p: PeripheralsView, addr: u32, addr2: u32, v: u8)
    requires
        p.wf(),
        is_unmapped(addr),
        is_unmapped(addr2),
        addr as int % fallback_size() == addr2 as int % fallback_size(),
    ensures
        p.written(addr, v).read_byte(addr2) == v,
{
}

/// The alternate control window (0xFF0000) reaches the same ports as the
/// primary one: reads agree and writes have the same effect.
pub proof fn lemma_control_alias(p: PeripheralsView, a: u32, v: u8)
    requires
        a < 0x100,
    ensures
        p.read_byte((CONTROL_ALT_BASE + a) as u32) == p.read_byte(a),
        p.written((CONTROL_ALT_BASE + a) as u32, v) == p.written(a, v),
{
}

} // verus!
