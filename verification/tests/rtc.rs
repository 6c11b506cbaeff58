use ti84ce::peripherals::rtc::{RtcController, RtcMode, LATCH_TICK_OFFSET, LOAD_LATCH_TICK_OFFSET, LOAD_PENDING, LOAD_TOTAL_TICKS, TICKS_PER_SECOND};

const CPU_SPEED_48MHZ: u8 = 0x03;

#[test]
fn rtc_test_new() {
    let rtc = RtcController::new();
    assert_eq!(rtc.control, 0);
    assert_eq!(rtc.counter.sec, 0);
    assert_eq!(rtc.mode, RtcMode::Latch);
}

#[test]
fn test_read_time() {
    let mut rtc = RtcController::new();
    assert_eq!(rtc.read(0x00, 0, CPU_SPEED_48MHZ), 0);
    assert_eq!(rtc.read(0x04, 0, CPU_SPEED_48MHZ), 0);
    assert_eq!(rtc.read(0x08, 0, CPU_SPEED_48MHZ), 0);
}

#[test]
fn rtc_test_read_revision() {
    let mut rtc = RtcController::new();
    assert_eq!(rtc.read(0x3C, 0, CPU_SPEED_48MHZ), 0x00);
    assert_eq!(rtc.read(0x3D, 0, CPU_SPEED_48MHZ), 0x05);
    assert_eq!(rtc.read(0x3E, 0, CPU_SPEED_48MHZ), 0x01);
    assert_eq!(rtc.read(0x3F, 0, CPU_SPEED_48MHZ), 0x00);
}

#[test]
fn test_load_status_complete() {
    let mut rtc = RtcController::new();
    assert_eq!(rtc.read(0x40, 0, CPU_SPEED_48MHZ), 0);
}

#[test]
fn test_load_status_pending() {
    let mut rtc = RtcController::new();
    rtc.write(0x20, 0xC1, 0, CPU_SPEED_48MHZ);
    assert_eq!(rtc.read(0x40, 0, CPU_SPEED_48MHZ), 0xF8);
}

#[test]
fn rtc_test_control() {
    let mut rtc = RtcController::new();
    rtc.write(0x20, 0x01, 0, CPU_SPEED_48MHZ);
    assert_eq!(rtc.read(0x20, 0, CPU_SPEED_48MHZ), 0x01);
}

#[test]
fn test_interrupt_ack() {
    let mut rtc = RtcController::new();
    rtc.interrupt = 0xFF;
    rtc.write(0x34, 0x0F, 0, CPU_SPEED_48MHZ);
    assert_eq!(rtc.interrupt, 0xF0);
}

#[test]
fn test_load_bit_stays_set() {
    let mut rtc = RtcController::new();
    rtc.write(0x20, 0xC1, 0, CPU_SPEED_48MHZ);
    assert_eq!(rtc.control & 0x40, 0x40);
    assert_eq!(rtc.control & 0x40, 0x40);
}

#[test]
fn test_alarm_write_masked() {
    let mut rtc = RtcController::new();
    rtc.write(0x10, 0xFF, 0, CPU_SPEED_48MHZ);
    assert_eq!(rtc.alarm.sec, 63);
    rtc.write(0x14, 0xFF, 0, CPU_SPEED_48MHZ);
    assert_eq!(rtc.alarm.min, 63);
    rtc.write(0x18, 0xFF, 0, CPU_SPEED_48MHZ);
    assert_eq!(rtc.alarm.hour, 31);
}

#[test]
fn test_load_registers_write_read() {
    let mut rtc = RtcController::new();
    rtc.write(0x24, 30, 0, CPU_SPEED_48MHZ);
    rtc.write(0x28, 45, 0, CPU_SPEED_48MHZ);
    rtc.write(0x2C, 12, 0, CPU_SPEED_48MHZ);
    rtc.write(0x30, 0x64, 0, CPU_SPEED_48MHZ);
    rtc.write(0x31, 0x00, 0, CPU_SPEED_48MHZ);
    assert_eq!(rtc.read(0x24, 0, CPU_SPEED_48MHZ), 30);
    assert_eq!(rtc.read(0x28, 0, CPU_SPEED_48MHZ), 45);
    assert_eq!(rtc.read(0x2C, 0, CPU_SPEED_48MHZ), 12);
    assert_eq!(rtc.read(0x30, 0, CPU_SPEED_48MHZ), 0x64);
    assert_eq!(rtc.read(0x31, 0, CPU_SPEED_48MHZ), 0x00);
}

#[test]
fn test_time_counting_one_second() {
    let mut rtc = RtcController::new();
    rtc.write(0x20, 0x81, 0, CPU_SPEED_48MHZ);
    rtc.counter.sec = 0;
    rtc.counter.min = 0;
    rtc.counter.hour = 0;

    rtc.mode = RtcMode::Tick;
    let (delay, _interrupt) = rtc.process_event();
    assert_eq!(rtc.counter.sec, 1);
    assert_eq!(delay, LATCH_TICK_OFFSET);
    assert_eq!(rtc.mode, RtcMode::Latch);
}

#[test]
fn test_time_counting_minute_rollover() {
    let mut rtc = RtcController::new();
    rtc.write(0x20, 0x81, 0, CPU_SPEED_48MHZ);
    rtc.counter.sec = 59;
    rtc.counter.min = 0;

    rtc.mode = RtcMode::Tick;
    rtc.process_event();

    assert_eq!(rtc.counter.sec, 0);
    assert_eq!(rtc.counter.min, 1);
}

#[test]
fn test_time_counting_hour_rollover() {
    let mut rtc = RtcController::new();
    rtc.write(0x20, 0x81, 0, CPU_SPEED_48MHZ);
    rtc.counter.sec = 59;
    rtc.counter.min = 59;
    rtc.counter.hour = 0;

    rtc.mode = RtcMode::Tick;
    rtc.process_event();

    assert_eq!(rtc.counter.sec, 0);
    assert_eq!(rtc.counter.min, 0);
    assert_eq!(rtc.counter.hour, 1);
}

#[test]
fn test_time_counting_day_rollover() {
    let mut rtc = RtcController::new();
    rtc.write(0x20, 0x81, 0, CPU_SPEED_48MHZ);
    rtc.counter.sec = 59;
    rtc.counter.min = 59;
    rtc.counter.hour = 23;
    rtc.counter.day = 0;

    rtc.mode = RtcMode::Tick;
    rtc.process_event();

    assert_eq!(rtc.counter.sec, 0);
    assert_eq!(rtc.counter.min, 0);
    assert_eq!(rtc.counter.hour, 0);
    assert_eq!(rtc.counter.day, 1);
}

#[test]
fn test_latch_copies_counter() {
    let mut rtc = RtcController::new();
    rtc.write(0x20, 0x81, 0, CPU_SPEED_48MHZ);
    rtc.counter.sec = 30;
    rtc.counter.min = 15;
    rtc.counter.hour = 8;
    rtc.counter.day = 100;

    rtc.mode = RtcMode::Latch;
    let (delay, _) = rtc.process_event();

    assert_eq!(rtc.latched.sec, 30);
    assert_eq!(rtc.latched.min, 15);
    assert_eq!(rtc.latched.hour, 8);
    assert_eq!(rtc.latched.day, 100);
    assert_eq!(rtc.mode, RtcMode::Tick);
    assert_eq!(delay, TICKS_PER_SECOND - LATCH_TICK_OFFSET);
}

#[test]
fn test_load_transfer() {
    let mut rtc = RtcController::new();
    rtc.write(0x20, 0x81, 0, CPU_SPEED_48MHZ);

    rtc.write(0x24, 30, 0, CPU_SPEED_48MHZ);
    rtc.write(0x28, 45, 0, CPU_SPEED_48MHZ);
    rtc.write(0x2C, 12, 0, CPU_SPEED_48MHZ);

    rtc.write(0x20, 0xC1, 0, CPU_SPEED_48MHZ);
    assert_eq!(rtc.load_ticks_processed, LOAD_PENDING);

    rtc.mode = RtcMode::Latch;
    let (delay, _) = rtc.process_event();
    assert_eq!(rtc.mode, RtcMode::LoadLatch);
    assert_eq!(delay, LOAD_LATCH_TICK_OFFSET - LATCH_TICK_OFFSET);
    assert_eq!(rtc.load_ticks_processed, 0);

    let (delay, raise) = rtc.process_event();
    assert!(raise);
    assert_eq!(rtc.interrupt & 32, 32);
    assert_eq!(rtc.mode, RtcMode::Tick);
    assert_eq!(delay, TICKS_PER_SECOND - LOAD_LATCH_TICK_OFFSET);

    let (_delay, _) = rtc.process_event();
    assert!(rtc.load_ticks_processed >= LOAD_TOTAL_TICKS);
    assert_eq!(rtc.counter.sec, 31);
    assert_eq!(rtc.counter.min, 45);
    assert_eq!(rtc.counter.hour, 12);
}

#[test]
fn test_interrupt_types() {
    let mut rtc = RtcController::new();
    rtc.write(0x20, 0x83, 0, CPU_SPEED_48MHZ);
    rtc.counter.sec = 0;

    rtc.mode = RtcMode::Tick;
    let (_, raise) = rtc.process_event();
    assert!(raise);
    assert_eq!(rtc.interrupt & 1, 1);
}

#[test]
fn test_combined_latched_value() {
    let mut rtc = RtcController::new();
    rtc.latched.sec = 30;
    rtc.latched.min = 15;
    rtc.latched.hour = 8;
    rtc.latched.day = 100;

    let combined: u32 = 30 | (15 << 6) | (8 << 12) | (100 << 17);
    assert_eq!(rtc.read(0x44, 0, CPU_SPEED_48MHZ), (combined & 0xFF) as u8);
    assert_eq!(rtc.read(0x45, 0, CPU_SPEED_48MHZ), ((combined >> 8) & 0xFF) as u8);
    assert_eq!(rtc.read(0x46, 0, CPU_SPEED_48MHZ), ((combined >> 16) & 0xFF) as u8);
    assert_eq!(rtc.read(0x47, 0, CPU_SPEED_48MHZ), ((combined >> 24) & 0xFF) as u8);
}
