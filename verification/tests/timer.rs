use ti84ce::peripherals::timer::GeneralTimers;

#[test]
fn timer_test_new() {
    let gpt = GeneralTimers::new();
    assert!(!gpt.is_enabled(0));
    assert!(!gpt.is_enabled(1));
    assert!(!gpt.is_enabled(2));
    assert_eq!(gpt.counter(0), 0);
}

#[test]
fn timer_test_reset() {
    let mut gpt = GeneralTimers::new();
    gpt.timer[0].counter = 0x12345678;
    gpt.control = 0xFFF;
    gpt.status = 0x1FF;
    gpt.reset();
    assert_eq!(gpt.timer[0].counter, 0);
    assert_eq!(gpt.control, 0);
    assert_eq!(gpt.status, 0);
}

#[test]
fn test_read_write_counter() {
    let mut gpt = GeneralTimers::new();
    gpt.write(0x00, 0x12);
    gpt.write(0x01, 0x34);
    gpt.write(0x02, 0x56);
    gpt.write(0x03, 0x78);
    assert_eq!(gpt.timer[0].counter, 0x78563412);
    assert_eq!(gpt.read(0x00), 0x12);
    assert_eq!(gpt.read(0x03), 0x78);
}

#[test]
fn test_read_write_timer1() {
    let mut gpt = GeneralTimers::new();
    gpt.write(0x10, 0xAB);
    gpt.write(0x11, 0xCD);
    assert_eq!(gpt.timer[1].counter & 0xFFFF, 0xCDAB);
}

#[test]
fn test_control_enable() {
    let mut gpt = GeneralTimers::new();
    gpt.write(0x30, 0x01);
    assert!(gpt.is_enabled(0));
    assert!(!gpt.is_enabled(1));
    assert!(!gpt.is_enabled(2));

    gpt.write(0x30, 0x09);
    assert!(gpt.is_enabled(0));
    assert!(gpt.is_enabled(1));
}

#[test]
fn timer_test_status_write_to_clear() {
    let mut gpt = GeneralTimers::new();
    gpt.status = 0x1FF;
    gpt.write(0x34, 0x07);
    assert_eq!(gpt.status, 0x1F8);
}

#[test]
fn test_revision() {
    let gpt = GeneralTimers::new();
    assert_eq!(gpt.read(0x3C), 0x01);
    assert_eq!(gpt.read(0x3D), 0x08);
    assert_eq!(gpt.read(0x3E), 0x01);
    assert_eq!(gpt.read(0x3F), 0x00);
}

#[test]
fn test_tick_count_up() {
    let mut gpt = GeneralTimers::new();
    gpt.control = 0x01;
    gpt.timer[0].counter = 0;

    let fired = gpt.tick(100, 3);
    assert_eq!(fired, 0);
    assert_eq!(gpt.timer[0].counter, 100);
}

#[test]
fn test_tick_count_down() {
    let mut gpt = GeneralTimers::new();
    gpt.control = 0x01 | (1 << 9);
    gpt.timer[0].counter = 100;

    let fired = gpt.tick(50, 3);
    assert_eq!(fired, 0);
    assert_eq!(gpt.timer[0].counter, 50);
}

#[test]
fn test_tick_overflow_sets_status() {
    let mut gpt = GeneralTimers::new();
    gpt.control = 0x01 | (1 << 2);
    gpt.timer[0].counter = 0xFFFFFFFE;
    gpt.mask = 0x04;

    let fired = gpt.tick(3, 3);
    assert_ne!(gpt.status & 0x04, 0);
    assert_ne!(fired, 0);
}

#[test]
fn test_tick_underflow_with_reset() {
    let mut gpt = GeneralTimers::new();
    gpt.control = 0x01 | (1 << 2) | (1 << 9);
    gpt.timer[0].counter = 5;
    gpt.timer[0].reset = 1000;

    gpt.tick(10, 3);
    assert_eq!(gpt.timer[0].counter, 995);
}

#[test]
fn test_disabled_timer_no_tick() {
    let mut gpt = GeneralTimers::new();
    gpt.timer[0].counter = 100;

    let fired = gpt.tick(50, 3);
    assert_eq!(fired, 0);
    assert_eq!(gpt.timer[0].counter, 100);
}

#[test]
fn test_match_interrupt() {
    let mut gpt = GeneralTimers::new();
    gpt.control = 0x01;
    gpt.timer[0].counter = 0;
    gpt.timer[0].match_val[0] = 50;
    gpt.mask = 0x01;

    let fired = gpt.tick(60, 3);
    assert_ne!(gpt.status & 0x01, 0);
    assert_ne!(fired, 0);
}
