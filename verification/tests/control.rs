use ti84ce::peripherals::control::regs;
use ti84ce::peripherals::control::{ControlPorts, MHZ_24, MHZ_48, MHZ_6};

#[test]
fn control_test_new() {
    let ctrl = ControlPorts::new();
    assert_eq!(ctrl.cpu_speed(), MHZ_6);
    assert!(!ctrl.lcd_enabled());
    assert!(!ctrl.protected_ports_unlocked());
    assert_eq!(ctrl.read_battery_status, 0);
    assert_eq!(ctrl.privileged, 0xFFFFFF);
    assert_eq!(ctrl.protected_start, 0xD1887C);
    assert_eq!(ctrl.protected_end, 0xD1887C);
}

#[test]
fn control_test_reset() {
    let mut ctrl = ControlPorts::new();
    ctrl.write(regs::CPU_SPEED, MHZ_48);
    ctrl.write(regs::POWER, 0x83);
    ctrl.write(0x20, 0x12);
    ctrl.write(0x1D, 0x00);

    ctrl.reset();
    assert_eq!(ctrl.cpu_speed(), MHZ_6);
    assert_eq!(ctrl.read(regs::POWER), 0x00);
    assert_eq!(ctrl.privileged, 0xFFFFFF);
    assert_eq!(ctrl.protected_start, 0xD1887C);
    assert_eq!(ctrl.read_battery_status, 0);
}

#[test]
fn test_fixed_values() {
    let ctrl = ControlPorts::new();
    assert_eq!(ctrl.read(regs::FIXED_7F), 0x7F);
    assert_eq!(ctrl.read(regs::FIXED_80), 0x80);
}

#[test]
fn test_cpu_speed() {
    let mut ctrl = ControlPorts::new();
    ctrl.write(regs::CPU_SPEED, MHZ_24);
    assert_eq!(ctrl.read(regs::CPU_SPEED), MHZ_24);
    assert_eq!(ctrl.cpu_speed(), MHZ_24);
}

#[test]
fn test_cpu_speed_masked() {
    let mut ctrl = ControlPorts::new();
    ctrl.write(regs::CPU_SPEED, 0xFF);
    assert_eq!(ctrl.cpu_speed(), 0x03);
}

#[test]
fn test_battery_status_readonly() {
    let mut ctrl = ControlPorts::new();
    let initial = ctrl.read(regs::BATTERY_STATUS);
    ctrl.write(regs::BATTERY_STATUS, 0xFF);
    assert_eq!(ctrl.read(regs::BATTERY_STATUS), initial);
}

#[test]
fn test_device_type_readonly() {
    let mut ctrl = ControlPorts::new();
    let initial = ctrl.read(regs::DEVICE_TYPE);
    ctrl.write(regs::DEVICE_TYPE, 0xFF);
    assert_eq!(ctrl.read(regs::DEVICE_TYPE), initial);
}

#[test]
fn test_lcd_enable() {
    let mut ctrl = ControlPorts::new();
    assert!(!ctrl.lcd_enabled());

    ctrl.write(regs::LCD_ENABLE, 0x01);
    assert!(ctrl.lcd_enabled());
    assert_eq!(ctrl.read(regs::LCD_ENABLE), 0x11);

    ctrl.write(regs::LCD_ENABLE, 0x08);
    assert_eq!(ctrl.read(regs::LCD_ENABLE), 0x88);

    ctrl.write(regs::LCD_ENABLE, 0x00);
    assert!(!ctrl.lcd_enabled());
    assert_eq!(ctrl.read(regs::LCD_ENABLE), 0x00);
}

#[test]
fn test_privileged_register() {
    let mut ctrl = ControlPorts::new();
    assert_eq!(ctrl.privileged_boundary(), 0xFFFFFF);
    assert_eq!(ctrl.read(0x1D), 0xFF);
    assert_eq!(ctrl.read(0x1E), 0xFF);
    assert_eq!(ctrl.read(0x1F), 0xFF);

    ctrl.write(0x1D, 0x00);
    ctrl.write(0x1E, 0x40);
    ctrl.write(0x1F, 0x00);
    assert_eq!(ctrl.privileged_boundary(), 0x004000);
    assert_eq!(ctrl.read(0x1D), 0x00);
    assert_eq!(ctrl.read(0x1E), 0x40);
    assert_eq!(ctrl.read(0x1F), 0x00);
}

#[test]
fn test_is_unprivileged() {
    let mut ctrl = ControlPorts::new();
    assert!(!ctrl.is_unprivileged(0x000000));
    assert!(!ctrl.is_unprivileged(0xD00000));
    assert!(!ctrl.is_unprivileged(0xFFFFFF));

    ctrl.write(0x1D, 0x00);
    ctrl.write(0x1E, 0x00);
    ctrl.write(0x1F, 0x40);
    assert_eq!(ctrl.privileged_boundary(), 0x400000);

    assert!(!ctrl.is_unprivileged(0x001000));
    assert!(!ctrl.is_unprivileged(0x3FFFFF));

    assert!(ctrl.is_unprivileged(0x400001));
    assert!(ctrl.is_unprivileged(0xD00000));

    assert!(!ctrl.is_unprivileged(0xD1887C));
}

#[test]
fn test_usb_control_masked() {
    let mut ctrl = ControlPorts::new();
    assert_eq!(ctrl.read(regs::USB_CONTROL), 0xC2);

    ctrl.write(regs::USB_CONTROL, 0xFF);
    assert_eq!(ctrl.read(regs::USB_CONTROL), 0xC3);

    ctrl.write(regs::USB_CONTROL, 0x01);
    assert_eq!(ctrl.read(regs::USB_CONTROL), 0xC1);
}

#[test]
fn test_protected_address() {
    let mut ctrl = ControlPorts::new();
    ctrl.write(0x20, 0x12);
    ctrl.write(0x21, 0x34);
    ctrl.write(0x22, 0x56);
    assert_eq!(ctrl.protected_start, 0x563412);

    assert_eq!(ctrl.read(0x20), 0x12);
    assert_eq!(ctrl.read(0x21), 0x34);
    assert_eq!(ctrl.read(0x22), 0x56);
}

#[test]
fn test_unlock_status() {
    let mut ctrl = ControlPorts::new();

    ctrl.write(regs::UNLOCK_STATUS, 0xFF);
    assert_eq!(ctrl.read(regs::UNLOCK_STATUS), 0x07);

    ctrl.write(regs::UNLOCK_STATUS, 0x04);
    assert!(ctrl.protected_ports_unlocked());

    ctrl.write(regs::UNLOCK_STATUS, 0x00);
    assert!(!ctrl.protected_ports_unlocked());
}

#[test]
fn test_flash_unlock_initial_zero() {
    let ctrl = ControlPorts::new();
    assert_eq!(ctrl.read(regs::FLASH_UNLOCK), 0x00);
}

#[test]
fn test_flash_unlock_write_behavior() {
    let mut ctrl = ControlPorts::new();

    ctrl.write(regs::FLASH_UNLOCK, 0x0C);
    assert_eq!(ctrl.read(regs::FLASH_UNLOCK), 0x04);

    ctrl.write(regs::FLASH_UNLOCK, 0x0F);
    assert_eq!(ctrl.read(regs::FLASH_UNLOCK), 0x05);

    ctrl.write(regs::FLASH_UNLOCK, 0x00);
    assert_eq!(ctrl.read(regs::FLASH_UNLOCK), 0x00);
}

#[test]
fn test_port06_affects_flash_unlock() {
    let mut ctrl = ControlPorts::new();

    ctrl.flash_unlock = 0x0C;

    ctrl.write(regs::UNLOCK_STATUS, 0x04);
    assert!(ctrl.protected_ports_unlocked());
    assert_eq!(ctrl.read(regs::FLASH_UNLOCK), 0x0C);

    ctrl.write(regs::UNLOCK_STATUS, 0x00);
    assert!(!ctrl.protected_ports_unlocked());
    assert_eq!(ctrl.read(regs::FLASH_UNLOCK), 0x04);
}

#[test]
fn test_unmapped_returns_zero() {
    let ctrl = ControlPorts::new();
    assert_eq!(ctrl.read(0x10), 0x00);
    assert_eq!(ctrl.read(0x30), 0x00);
}
