use ti84ce::peripherals::watchdog::{WatchdogController, WATCHDOG_ACTION_NMI, WATCHDOG_ACTION_RESET};

#[test]
fn watchdog_test_new() {
    let wdt = WatchdogController::new();
    assert_eq!(wdt.control, 0x00);
    assert_eq!(wdt.load, 0x03EF1480);
    assert_eq!(wdt.count, 0x03EF1480);
    assert_eq!(wdt.pulse_load, 0xFF);
}

#[test]
fn watchdog_test_reset() {
    let mut wdt = WatchdogController::new();
    wdt.control = 0x03;
    wdt.load = 0x12345678;
    wdt.count = 0x00000001;
    wdt.status = 0x01;
    wdt.pulse_load = 0x42;
    wdt.reset();
    assert_eq!(wdt.control, 0x00);
    assert_eq!(wdt.load, 0x03EF1480);
    assert_eq!(wdt.count, 0x03EF1480);
    assert_eq!(wdt.status, 0x00);
    assert_eq!(wdt.pulse_load, 0xFF);
}

#[test]
fn test_read_count() {
    let mut wdt = WatchdogController::new();
    wdt.count = 0x12345678;
    assert_eq!(wdt.read(0x00), 0x78);
    assert_eq!(wdt.read(0x01), 0x56);
    assert_eq!(wdt.read(0x02), 0x34);
    assert_eq!(wdt.read(0x03), 0x12);
}

#[test]
fn test_read_write_load() {
    let mut wdt = WatchdogController::new();
    wdt.write(0x04, 0x12);
    wdt.write(0x05, 0x34);
    wdt.write(0x06, 0x56);
    wdt.write(0x07, 0x78);
    assert_eq!(wdt.load, 0x78563412);
    assert_eq!(wdt.read(0x04), 0x12);
    assert_eq!(wdt.read(0x05), 0x34);
    assert_eq!(wdt.read(0x06), 0x56);
    assert_eq!(wdt.read(0x07), 0x78);
}

#[test]
fn test_restart_magic() {
    let mut wdt = WatchdogController::new();
    wdt.load = 0x00001000;
    wdt.count = 0x00000001;

    wdt.write(0x08, 0x42);
    assert_eq!(wdt.count, 0x00000001);

    wdt.write(0x08, 0xB9);
    assert_eq!(wdt.count, 0x00001000);
}

#[test]
fn watchdog_test_control() {
    let mut wdt = WatchdogController::new();
    wdt.write(0x0C, 0x07);
    assert_eq!(wdt.read(0x0C), 0x07);
}

#[test]
fn watchdog_test_status_write_to_clear() {
    let mut wdt = WatchdogController::new();
    wdt.status = 0x01;
    assert_eq!(wdt.read(0x10), 0x01);
    wdt.write(0x14, 0xFF);
    assert_eq!(wdt.read(0x10), 0x00);
}

#[test]
fn test_pulse_load() {
    let mut wdt = WatchdogController::new();
    assert_eq!(wdt.read(0x18), 0xFF);
    wdt.write(0x18, 0x42);
    assert_eq!(wdt.read(0x18), 0x42);
}

#[test]
fn watchdog_test_read_revision() {
    let wdt = WatchdogController::new();
    assert_eq!(wdt.read(0x1C), 0x02);
    assert_eq!(wdt.read(0x1D), 0x06);
    assert_eq!(wdt.read(0x1E), 0x01);
    assert_eq!(wdt.read(0x1F), 0x00);
}

#[test]
fn test_tick_disabled() {
    let mut wdt = WatchdogController::new();
    assert_eq!(wdt.tick(1000, 0), 0);
    assert_eq!(wdt.count, WatchdogController::DEFAULT_LOAD);
}

#[test]
fn test_expiry_raises_configured_actions_after_expiry_cycle() {
    let mut wdt = WatchdogController::new();
    wdt.load = 2;
    wdt.count = 2;
    wdt.control = 0x07;

    assert_eq!(wdt.tick(2, 0), 0);
    assert_eq!(wdt.status, 0);
    assert_eq!(wdt.tick(1, 0), WATCHDOG_ACTION_RESET | WATCHDOG_ACTION_NMI);
    assert_eq!(wdt.status, 1);
}

#[test]
fn test_snapshot_round_trip() {
    let mut saved = WatchdogController::new();
    saved.load = 42;
    saved.count = 17;
    saved.control = 0x11;
    saved.clock_accumulator = 1234;

    let mut restored = WatchdogController::new();
    restored.from_bytes(&saved.to_bytes()).unwrap();
    assert_eq!(restored.to_bytes(), saved.to_bytes());
}
