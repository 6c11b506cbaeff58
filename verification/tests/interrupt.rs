use ti84ce::peripherals::interrupt::sources;
use ti84ce::peripherals::interrupt::InterruptController;

const REG_STATUS: u32 = 0x00;
const REG_ENABLED: u32 = 0x04;
const REG_RAW: u32 = 0x08;
const REG_LATCHED: u32 = 0x0C;

#[test]
fn interrupt_test_new() {
    let ic = InterruptController::new();
    assert_eq!(ic.read(0x01), 0x80);
    assert_eq!(ic.read(0x04), 0x00);
    assert!(!ic.irq_pending());
}

#[test]
fn interrupt_test_reset() {
    let mut ic = InterruptController::new();
    ic.raise(sources::TIMER1);
    ic.write(0x04, sources::TIMER1 as u8);
    assert!(ic.irq_pending());

    ic.reset();
    assert_eq!(ic.read(0x01), 0x80);
    assert_eq!(ic.read(0x04), 0x00);
    assert!(!ic.irq_pending());
}

#[test]
fn test_raise_and_pending() {
    let mut ic = InterruptController::new();

    ic.raise(sources::TIMER1);
    assert!(!ic.irq_pending());

    ic.write(0x04, sources::TIMER1 as u8);
    assert!(ic.irq_pending());
}

#[test]
fn test_acknowledge() {
    let mut ic = InterruptController::new();

    ic.raise(sources::TIMER1);
    ic.write(0x04, sources::TIMER1 as u8);
    assert!(ic.irq_pending());

    ic.write(0x0C, sources::TIMER1 as u8);
    ic.write(0x08, sources::TIMER1 as u8);
    assert!(!ic.irq_pending());
}

#[test]
fn test_read_write_enabled() {
    let mut ic = InterruptController::new();

    ic.write(0x04, 0x12);
    assert_eq!(ic.read(0x04), 0x12);

    ic.write(0x05, 0x34);
    assert_eq!(ic.read(0x04), 0x12);
    assert_eq!(ic.read(0x05), 0x34);
}

#[test]
fn test_multiple_sources() {
    let mut ic = InterruptController::new();

    ic.write(0x04, sources::TIMER1 as u8);
    ic.write(0x05, 0x04);

    ic.raise(sources::TIMER1);
    assert!(ic.irq_pending());

    ic.acknowledge(sources::TIMER1);
    assert!(!ic.irq_pending());

    ic.raise(sources::KEYPAD);
    assert!(ic.irq_pending());
}

#[test]
fn test_raw_state() {
    let mut ic = InterruptController::new();

    ic.write(REG_LATCHED, sources::TIMER2 as u8);

    ic.raise(sources::TIMER2);
    assert_eq!(ic.read(REG_RAW), sources::TIMER2 as u8);
    assert_eq!(ic.read(REG_STATUS), sources::TIMER2 as u8);

    ic.clear_raw(sources::TIMER2);
    assert_eq!(ic.read(REG_RAW), 0);
    assert_eq!(ic.read(REG_STATUS), sources::TIMER2 as u8);
}

#[test]
fn test_multi_byte_status() {
    let mut ic = InterruptController::new();

    ic.raise(sources::LCD);

    assert_eq!(ic.read(REG_STATUS), 0);
    let expected = ((sources::LCD >> 8) | (sources::PWR >> 8)) as u8;
    assert_eq!(ic.read(REG_STATUS + 1), expected);
}

#[test]
fn test_on_key_interrupt() {
    let mut ic = InterruptController::new();

    ic.write(REG_ENABLED, sources::ON_KEY as u8);

    ic.raise(sources::ON_KEY);
    assert!(ic.irq_pending());
    assert_eq!(ic.read(REG_STATUS), sources::ON_KEY as u8);
}

#[test]
fn test_all_timer_sources() {
    let mut ic = InterruptController::new();

    let mask = sources::TIMER1 | sources::TIMER2 | sources::TIMER3;
    ic.write(REG_ENABLED, mask as u8);

    ic.raise(sources::TIMER3);
    assert!(ic.irq_pending());

    ic.acknowledge(sources::TIMER3);
    assert!(!ic.irq_pending());

    ic.raise(sources::TIMER1);
    ic.raise(sources::TIMER2);
    ic.raise(sources::TIMER3);

    ic.acknowledge(sources::TIMER1);
    assert!(ic.irq_pending());

    ic.acknowledge(sources::TIMER2 | sources::TIMER3);
    assert!(!ic.irq_pending());
}
