use ti84ce::peripherals::interrupt::sources;
use ti84ce::peripherals::Peripherals;
use ti84ce::peripherals::{CONTROL_ALT_BASE, CONTROL_BASE, FLASH_BASE, INT_BASE, KEYPAD_BASE, LCD_BASE, TIMER_BASE};
use ti84ce::peripherals::{KEYPAD_COLS, KEYPAD_ROWS};

fn empty_keys() -> [[bool; KEYPAD_COLS]; KEYPAD_ROWS] {
    [[false; KEYPAD_COLS]; KEYPAD_ROWS]
}

trait PeripheralsTestExt {
    fn read_test(&mut self, addr: u32, keys: &[[bool; KEYPAD_COLS]; KEYPAD_ROWS]) -> u8;
    fn write_test(&mut self, addr: u32, value: u8);
}

impl PeripheralsTestExt for Peripherals {
    fn read_test(&mut self, addr: u32, keys: &[[bool; KEYPAD_COLS]; KEYPAD_ROWS]) -> u8 {
        self.read(addr, keys, 0)
    }

    fn write_test(&mut self, addr: u32, value: u8) {
        self.write(addr, value, 0)
    }
}

#[test]
fn mod_test_new() {
    let p = Peripherals::new();
    assert!(!p.irq_pending());
}

#[test]
fn mod_test_reset() {
    let mut p = Peripherals::new();

    p.interrupt.raise(sources::TIMER1);
    p.write_test(INT_BASE + 0x04, sources::TIMER1 as u8);
    p.timers.write(0x30, 0x01);
    p.set_key(0, 0, true);

    assert!(p.irq_pending());
    assert!(p.timers.is_enabled(0));
    assert!(p.key_state()[0][0]);

    p.reset();

    assert!(!p.irq_pending());
    assert!(!p.timers.is_enabled(0));
    assert!(!p.key_state()[0][0]);
}

#[test]
fn test_set_key_bounds_check() {
    let mut p = Peripherals::new();

    p.set_key(100, 100, true);
    p.set_key(KEYPAD_ROWS, 0, true);
    p.set_key(0, KEYPAD_COLS, true);
}

#[test]
fn test_lcd_routing() {
    let mut p = Peripherals::new();
    let keys = empty_keys();

    p.write_test(LCD_BASE + 0x10, 0x00);
    p.write_test(LCD_BASE + 0x11, 0x00);
    p.write_test(LCD_BASE + 0x12, 0xD5);

    assert_eq!(p.lcd.upbase(), 0xD50000);

    assert_eq!(p.read_test(LCD_BASE + 0x10, &keys), 0x00);
    assert_eq!(p.read_test(LCD_BASE + 0x12, &keys), 0xD5);
}

#[test]
fn test_timer_routing() {
    let mut p = Peripherals::new();
    let keys = empty_keys();

    p.write_test(TIMER_BASE, 0x12);
    p.write_test(TIMER_BASE + 1, 0x34);

    assert_eq!(p.read_test(TIMER_BASE, &keys), 0x12);
    assert_eq!(p.read_test(TIMER_BASE + 1, &keys), 0x34);

    p.write_test(TIMER_BASE + 0x30, 0x01);
    assert!(p.timers.is_enabled(0));
}

#[test]
fn test_keypad_routing() {
    let mut p = Peripherals::new();
    let keys = empty_keys();

    assert_eq!(p.read_test(KEYPAD_BASE + 0x10, &keys), 0x00);

    p.write_test(KEYPAD_BASE + 0x00, 0x01);

    p.set_key(0, 3, true);

    p.write_test(KEYPAD_BASE + 0x08, 0xFF);

    let keys_copy = *p.key_state();
    assert_eq!(p.read_test(KEYPAD_BASE + 0x10, &keys_copy), 1 << 3);
}

#[test]
fn test_interrupt_routing() {
    let mut p = Peripherals::new();
    let keys = empty_keys();

    p.write_test(INT_BASE + 0x04, sources::TIMER1 as u8);

    p.interrupt.raise(sources::TIMER1);

    assert!(p.irq_pending());

    assert_eq!(p.read_test(INT_BASE, &keys), sources::TIMER1 as u8);
}

#[test]
fn test_control_routing() {
    let mut p = Peripherals::new();
    let keys = empty_keys();

    p.write_test(CONTROL_BASE + 0x01, 0x02);
    assert_eq!(p.read_test(CONTROL_BASE + 0x01, &keys), 0x02);
    assert_eq!(p.control.cpu_speed(), 0x02);
}

#[test]
fn test_control_alt_routing() {
    let mut p = Peripherals::new();
    let keys = empty_keys();

    p.write_test(CONTROL_ALT_BASE + 0x01, 0x01);
    assert_eq!(p.read_test(CONTROL_ALT_BASE + 0x01, &keys), 0x01);

    assert_eq!(p.read_test(CONTROL_BASE + 0x01, &keys), 0x01);
}

#[test]
fn test_tick_timer_interrupt() {
    let mut p = Peripherals::new();

    p.write_test(TIMER_BASE + 0x30, 0x05);
    p.write_test(TIMER_BASE + 0x38, 0x04);
    p.write_test(TIMER_BASE, 0xFF);
    p.write_test(TIMER_BASE + 1, 0xFF);
    p.write_test(TIMER_BASE + 2, 0xFF);
    p.write_test(TIMER_BASE + 3, 0xFF);

    p.write_test(INT_BASE + 0x04, sources::TIMER1 as u8);

    p.tick(2, 0);
    assert!(p.timers.needs_delay_event);

    process_timer_delays(&mut p);

    assert!(p.irq_pending());
}

#[test]
fn test_lcd_enable_sets_scheduling_flag() {
    let mut p = Peripherals::new();

    assert!(!p.lcd.needs_lcd_event);
    p.write_test(LCD_BASE + 0x18, 0x01);
    assert!(p.lcd.needs_lcd_event);

    p.lcd.needs_lcd_event = false;
    p.write_test(LCD_BASE + 0x18, 0x00);
    assert!(p.lcd.needs_lcd_clear);
}

#[test]
fn test_tick_keypad_interrupt() {
    let mut p = Peripherals::new();

    p.write_test(KEYPAD_BASE + 0x00, 0x02);
    p.write_test(KEYPAD_BASE + 0x0C, 0x04);

    p.write_test(INT_BASE + 0x05, (sources::KEYPAD >> 8) as u8);

    p.set_key(0, 0, true);

    let pending = p.tick(1, 0);
    assert!(pending);
}

fn process_timer_delays(p: &mut Peripherals) {
    loop {
        if !p.timers.needs_delay_schedule() {
            break;
        }
        let (_status, intrpt, has_more) = p.timers.process_delay();
        for i in 0..3 {
            if intrpt & (1 << i) != 0 {
                let source = match i {
                    0 => sources::TIMER1,
                    1 => sources::TIMER2,
                    2 => sources::TIMER3,
                    _ => unreachable!(),
                };
                p.interrupt.raise(source);
            }
        }
        if !has_more {
            break;
        }
    }
}

#[test]
fn test_tick_multiple_timers() {
    let mut p = Peripherals::new();

    let ctrl: u32 = 0x01 | 0x04
                   | 0x08 | 0x20
                   | 0x40 | 0x100;
    p.write_test(TIMER_BASE + 0x30, (ctrl & 0xFF) as u8);
    p.write_test(TIMER_BASE + 0x31, ((ctrl >> 8) & 0xFF) as u8);

    let mask: u32 = 0x04 | 0x20 | 0x100;
    p.write_test(TIMER_BASE + 0x38, (mask & 0xFF) as u8);
    p.write_test(TIMER_BASE + 0x39, ((mask >> 8) & 0xFF) as u8);

    p.write_test(TIMER_BASE, 0xFE);
    p.write_test(TIMER_BASE + 1, 0xFF);
    p.write_test(TIMER_BASE + 2, 0xFF);
    p.write_test(TIMER_BASE + 3, 0xFF);

    p.write_test(TIMER_BASE + 0x10, 0xFD);
    p.write_test(TIMER_BASE + 0x11, 0xFF);
    p.write_test(TIMER_BASE + 0x12, 0xFF);
    p.write_test(TIMER_BASE + 0x13, 0xFF);

    p.write_test(TIMER_BASE + 0x20, 0xFC);
    p.write_test(TIMER_BASE + 0x21, 0xFF);
    p.write_test(TIMER_BASE + 0x22, 0xFF);
    p.write_test(TIMER_BASE + 0x23, 0xFF);

    let enabled = sources::TIMER1 | sources::TIMER2 | sources::TIMER3;
    p.write_test(INT_BASE + 0x04, enabled as u8);

    p.tick(2, 0);
    process_timer_delays(&mut p);

    p.tick(1, 0);
    process_timer_delays(&mut p);

    p.tick(1, 0);
    process_timer_delays(&mut p);

    assert_ne!(p.interrupt.read(0x00) & sources::TIMER1 as u8, 0);
    assert_ne!(p.interrupt.read(0x00) & sources::TIMER2 as u8, 0);
    assert_ne!(p.interrupt.read(0x00) & sources::TIMER3 as u8, 0);
}

#[test]
fn test_tick_no_interrupts_when_disabled() {
    let mut p = Peripherals::new();

    p.write_test(TIMER_BASE + 0x30, 0x05);
    p.write_test(TIMER_BASE + 0x38, 0x04);
    p.write_test(TIMER_BASE, 0xFF);
    p.write_test(TIMER_BASE + 1, 0xFF);
    p.write_test(TIMER_BASE + 2, 0xFF);
    p.write_test(TIMER_BASE + 3, 0xFF);

    p.tick(2, 0);
    process_timer_delays(&mut p);

    assert!(!p.irq_pending());

    assert_ne!(p.interrupt.read(0x00), 0);
}

#[test]
fn test_fallback_storage() {
    let mut p = Peripherals::new();
    let keys = empty_keys();

    p.write_test(0x000100, 0xAB);
    assert_eq!(p.read_test(0x000100, &keys), 0xAB);
}

#[test]
fn test_fallback_storage_wraps() {
    let mut p = Peripherals::new();
    let keys = empty_keys();

    let addr = Peripherals::FALLBACK_SIZE as u32 + 0x100;
    p.write_test(addr, 0xCD);
    assert_eq!(p.read_test(0x100, &keys), 0xCD);
}

#[test]
fn test_flash_controller_routing() {
    let mut p = Peripherals::new();
    let keys = empty_keys();

    assert_eq!(p.read_test(FLASH_BASE + 0x00, &keys), 0x01);
    assert_eq!(p.read_test(FLASH_BASE + 0x01, &keys), 0x00);
    assert_eq!(p.read_test(FLASH_BASE + 0x02, &keys), 0x06);
    assert_eq!(p.read_test(FLASH_BASE + 0x05, &keys), 0x04);
    assert_eq!(p.read_test(FLASH_BASE + 0x08, &keys), 0x00);

    p.write_test(FLASH_BASE + 0x05, 0x08);
    assert_eq!(p.read_test(FLASH_BASE + 0x05, &keys), 0x08);

    assert_eq!(p.flash.wait_states(), 0x08);
    assert_eq!(p.flash.total_wait_cycles(), 14);
}

#[test]
fn test_flash_controller_read_write() {
    let mut p = Peripherals::new();
    let keys = empty_keys();

    p.write_test(FLASH_BASE + 0x00, 0x00);
    assert_eq!(p.read_test(FLASH_BASE + 0x00, &keys), 0x00);
    assert!(!p.flash.is_enabled());

    p.write_test(FLASH_BASE + 0x00, 0x01);
    assert_eq!(p.read_test(FLASH_BASE + 0x00, &keys), 0x01);
    assert!(p.flash.is_enabled());

    p.write_test(FLASH_BASE + 0x02, 0x05);
    assert_eq!(p.read_test(FLASH_BASE + 0x02, &keys), 0x05);
    assert_eq!(p.flash.map_select(), 0x05);

    assert_eq!(p.read_test(FLASH_BASE + 0x03, &keys), 0xFF);
    assert_eq!(p.read_test(FLASH_BASE + 0x04, &keys), 0xFF);
}

#[test]
fn test_flash_reset() {
    let mut p = Peripherals::new();

    p.flash.write(0x00, 0x00);
    p.flash.write(0x05, 0x10);
    assert!(!p.flash.is_enabled());

    p.reset();
    assert!(p.flash.is_enabled());
    assert_eq!(p.flash.wait_states(), 0x04);
    assert_eq!(p.flash.map_select(), 0x06);
}
