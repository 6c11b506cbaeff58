use ti84ce::peripherals::keypad::{KeypadController, KEYPAD_COLS, KEYPAD_ROWS};
use ti84ce::peripherals::keypad::{MODE_CONTINUOUS, MODE_IDLE, MODE_MULTI_GROUP, MODE_SINGLE};

const REG_CONTROL: u32 = 0x00;
const REG_SIZE: u32 = 0x04;
const REG_INT_STATUS: u32 = 0x08;
const REG_INT_ACK: u32 = 0x0C;
const REG_DATA_BASE: u32 = 0x10;
const REG_GPIO_ENABLE: u32 = 0x40;

fn scan_keys(kp: &mut KeypadController, keys: &[[bool; KEYPAD_COLS]; KEYPAD_ROWS]) {
    kp.write(REG_CONTROL, MODE_MULTI_GROUP);
    kp.tick(5000, keys);
}

fn empty_key_state() -> [[bool; KEYPAD_COLS]; KEYPAD_ROWS] {
    [[false; KEYPAD_COLS]; KEYPAD_ROWS]
}

fn update_keys(kp: &mut KeypadController, keys: &[[bool; KEYPAD_COLS]; KEYPAD_ROWS]) {
    kp.write(REG_CONTROL, MODE_SINGLE);
    kp.any_key_check(keys);
}

#[test]
fn keypad_test_new() {
    let kp = KeypadController::new();
    assert_eq!(kp.mode(), MODE_IDLE);
    assert_eq!(kp.rows(), 8);
    assert_eq!(kp.cols(), 8);
    assert_eq!(kp.mask(), 0xFFFF);
}

#[test]
fn keypad_test_reset() {
    let mut kp = KeypadController::new();
    kp.write(REG_CONTROL, MODE_MULTI_GROUP);
    kp.enable = 0x04;
    kp.status = 0x01;

    kp.reset();
    assert_eq!(kp.mode(), MODE_IDLE);
    assert_eq!(kp.enable, 0);
    assert_eq!(kp.status, 0);
    assert_eq!(kp.rows(), 8);
    assert_eq!(kp.cols(), 8);
    assert_eq!(kp.mask(), 0xFFFF);
}

#[test]
fn test_read_no_keys() {
    let mut kp = KeypadController::new();
    let keys = empty_key_state();

    for row in 0..KEYPAD_ROWS {
        let data = kp.read(REG_DATA_BASE + (row as u32) * 2, &keys);
        assert_eq!(data, 0x00, "Row {} should be 0x00", row);
    }
}

#[test]
fn test_read_key_pressed() {
    let mut kp = KeypadController::new();
    let mut keys = empty_key_state();

    keys[2][3] = true;

    update_keys(&mut kp, &keys);

    let data = kp.read(REG_DATA_BASE + 4, &keys);
    assert_eq!(data, 1 << 3, "Row 2 should have bit 3 set");

    let data = kp.read(REG_DATA_BASE, &keys);
    assert_eq!(data, 1 << 3, "Row 0 should also have the combined data");
}

#[test]
fn test_read_high_byte() {
    let mut kp = KeypadController::new();
    let mut keys = empty_key_state();

    keys[0][3] = true;

    update_keys(&mut kp, &keys);

    let lo = kp.read(REG_DATA_BASE, &keys);
    assert_eq!(lo, 1 << 3);

    let hi = kp.read(REG_DATA_BASE + 1, &keys);
    assert_eq!(hi, 0x00);
}

#[test]
fn test_multiple_keys() {
    let mut kp = KeypadController::new();
    let mut keys = empty_key_state();

    keys[0][0] = true;
    keys[0][2] = true;
    keys[0][5] = true;

    update_keys(&mut kp, &keys);

    let data = kp.read(REG_DATA_BASE, &keys);
    let expected = (1 << 0) | (1 << 2) | (1 << 5);
    assert_eq!(data, expected as u8);
}

#[test]
fn test_clear_int_status() {
    let mut kp = KeypadController::new();
    let keys = empty_key_state();

    kp.status = 0xFF;
    kp.enable = 0x07;

    kp.write(REG_INT_STATUS, 0x05);
    let status_read = kp.read(REG_INT_STATUS, &keys);
    assert_eq!(status_read, 0x02);
    assert_eq!(kp.status, 0xFA);
}

#[test]
fn test_interrupt_check() {
    let mut kp = KeypadController::new();
    let mut keys = empty_key_state();

    assert!(!kp.check_interrupt(&keys));

    kp.write(REG_CONTROL, MODE_CONTINUOUS);
    kp.enable = 0x04;

    assert!(!kp.check_interrupt(&keys));

    keys[0][0] = true;
    assert!(kp.check_interrupt(&keys));
}

#[test]
fn test_interrupt_different_modes() {
    let mut kp = KeypadController::new();
    let mut keys = empty_key_state();
    keys[0][0] = true;
    kp.enable = 0x04;

    kp.write(REG_CONTROL, MODE_IDLE);
    assert!(!kp.check_interrupt(&keys));

    kp.write(REG_CONTROL, MODE_SINGLE);
    assert!(kp.check_interrupt(&keys));

    kp.write(REG_CONTROL, MODE_CONTINUOUS);
    assert!(kp.check_interrupt(&keys));

    kp.write(REG_CONTROL, MODE_MULTI_GROUP);
    assert!(!kp.check_interrupt(&keys));
}

#[test]
fn test_read_out_of_range_row() {
    let mut kp = KeypadController::new();
    let keys = empty_key_state();

    scan_keys(&mut kp, &keys);
    let data = kp.read(REG_DATA_BASE + 0x10, &keys);
    assert_eq!(data, 0x00);
}

#[test]
fn test_read_unknown_register() {
    let mut kp = KeypadController::new();
    let keys = empty_key_state();

    let data = kp.read(0x3F, &keys);
    assert_eq!(data, 0x00);
}

#[test]
fn test_packed_control_fields() {
    let mut kp = KeypadController::new();

    kp.write(REG_CONTROL, 0x03);
    assert_eq!(kp.mode(), 3);

    kp.control = 0;
    kp.write(REG_CONTROL, 0x41);
    assert_eq!(kp.mode(), 1);
    assert_eq!(kp.row_wait(), 0x10);

    kp.write(REG_CONTROL + 2, 0x04);
    assert_eq!(kp.scan_wait(), 4);
}

#[test]
fn test_packed_size_fields() {
    let mut kp = KeypadController::new();

    assert_eq!(kp.rows(), 8);
    assert_eq!(kp.cols(), 8);
    assert_eq!(kp.mask(), 0xFFFF);

    kp.write(REG_SIZE, 4);
    assert_eq!(kp.rows(), 4);
    assert_eq!(kp.cols(), 8);

    kp.write(REG_SIZE + 1, 6);
    assert_eq!(kp.cols(), 6);

    kp.write(REG_SIZE + 2, 0x0F);
    kp.write(REG_SIZE + 3, 0x00);
    assert_eq!(kp.mask(), 0x000F);
}

#[test]
fn keypad_test_enable_masked() {
    let mut kp = KeypadController::new();
    let keys = empty_key_state();

    kp.write(REG_INT_ACK, 0xFF);
    assert_eq!(kp.enable, 0x07);

    let val = kp.read(REG_INT_ACK, &keys);
    assert_eq!(val, 0x07);
}

#[test]
fn test_gpio_enable() {
    let mut kp = KeypadController::new();
    let keys = empty_key_state();

    kp.write(REG_GPIO_ENABLE, 0xAB);
    kp.write(REG_GPIO_ENABLE + 1, 0xCD);

    assert_eq!(kp.read(REG_GPIO_ENABLE, &keys), 0xAB);
    assert_eq!(kp.read(REG_GPIO_ENABLE + 1, &keys), 0xCD);
    assert_eq!(kp.gpio_enable, 0x0000CDAB);
}
