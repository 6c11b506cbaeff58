//! Control port register offsets.
use vstd::prelude::*;

verus! {

/// Power control.
pub const POWER: u32 = 0x00;

/// CPU speed selection (6/12/24/48 MHz).
pub const CPU_SPEED: u32 = 0x01;

/// Battery status.
pub const BATTERY_STATUS: u32 = 0x02;

/// Device type / serial flash indicator.
pub const DEVICE_TYPE: u32 = 0x03;

/// Control flags.
pub const CONTROL_FLAGS: u32 = 0x05;

/// Protected ports unlock.
pub const UNLOCK_STATUS: u32 = 0x06;

/// Battery configuration (starts the battery probe).
pub const BATTERY_CONFIG: u32 = 0x07;

/// Fixed value register (reads 0x7F).
pub const FIXED_7F: u32 = 0x08;

/// Battery/panel control.
pub const PANEL_CONTROL: u32 = 0x09;

/// Battery check (advances the probe state machine).
pub const BATTERY_CHECK: u32 = 0x0A;

/// Battery charging status.
pub const BATTERY_CHARGING: u32 = 0x0B;

/// Battery reset (resets the probe state machine).
pub const BATTERY_RESET: u32 = 0x0C;

/// LCD enable.
pub const LCD_ENABLE: u32 = 0x0D;

/// USB/general control.
pub const USB_CONTROL: u32 = 0x0F;

/// Fixed value register (reads 0x80).
pub const FIXED_80: u32 = 0x1C;

/// Flash unlock status.
pub const FLASH_UNLOCK: u32 = 0x28;

/// General control.
pub const GENERAL: u32 = 0x29;

} // verus!
