//! Control ports.
//!
//! Memory-mapped at 0xE00000 (also reachable through OUT0/IN0 at 0xFF00xx).
//! These ports control system-level functions such as CPU speed, battery
//! status, LCD enable, flash unlock and memory protection.
use vstd::prelude::*;
use vstd::string::*;
use crate::text::{bool_text, dec_text, hex_text, push_bool, push_dec, push_hex};

pub mod regs;

verus! {

/// CPU speed setting for 6 MHz (the other settings are 1, 2 and 3 for 12, 24 and 48 MHz).
pub const MHZ_6: u8 = 0x00;

pub const MHZ_12: u8 = 0x01;

pub const MHZ_24: u8 = 0x02;

pub const MHZ_48: u8 = 0x03;

/// Full battery level, the level at power-on.
pub const BATTERY_LEVEL_4: u8 = 5;

/// Control port controller.
#[derive(Debug, Clone)]
pub struct ControlPorts {
    /// Power control register (writable bits 0x93).
    pub power: u8,
    /// CPU speed port (bits 1:0 speed, bit 4 flag).
    pub cpu_speed: u8,
    /// Clock rate in MHz that the scheduler currently runs at.
    pub prev_clock_mhz: u32,
    /// Set by every write to the CPU speed port, cleared when consumed.
    pub cpu_speed_written: bool,
    pub device_type: u8,
    pub control_flags: u8,
    pub unlock_status: u8,
    pub battery_config: u8,
    pub panel_control: u8,
    pub battery_check: u8,
    pub battery_charging_port: u8,
    pub battery_reset: u8,
    pub lcd_enable: u8,
    pub usb_control: u8,
    /// Flash unlock: bit 0 unlock attempt, bit 2 unlocked, bit 3 flash ready.
    pub flash_unlock: u8,
    pub general: u8,
    /// Privileged boundary (24 bits): code above it is unprivileged.
    pub privileged: u32,
    pub protected_start: u32,
    pub protected_end: u32,
    pub stack_limit: u32,
    /// Battery state machine: status returned on port 0x02 reads.
    pub read_battery_status: u8,
    /// Battery state machine: actual battery level.
    pub set_battery_status: u8,
    pub battery_charging: bool,
    /// Protection status: bit 0 stack limit violation, bit 1 protected memory violation.
    pub protection_status: u8,
}

/// `w` (a 24-bit register) with byte `k` (0, 1 or 2) replaced by `v`.
pub open spec fn with_byte24(w: u32, k: int, v: u8) -> u32 {
    if k == 0 {
        (w & 0xFFFF00) | (v as u32)
    } else if k == 1 {
        (w & 0xFF00FF) | ((v as u32) << 8u32)
    } else {
        (w & 0x00FFFF) | ((v as u32) << 16u32)
    }
}

/// Byte `k` (0, 1 or 2) of a 24-bit register.
pub open spec fn byte24(w: u32, k: int) -> u8 {
    if k == 0 {
        w as u8
    } else if k == 1 {
        (w >> 8u32) as u8
    } else {
        (w >> 16u32) as u8
    }
}

impl ControlPorts {
    /// The power-on state.
    pub open spec fn initial() -> Self {
        ControlPorts {
            power: 0,
            cpu_speed: MHZ_6,
            prev_clock_mhz: 48,
            cpu_speed_written: false,
            device_type: 0,
            control_flags: 0,
            unlock_status: 0,
            battery_config: 0,
            panel_control: 0,
            battery_check: 0,
            battery_charging_port: 0,
            battery_reset: 0,
            lcd_enable: 0,
            usb_control: 0x02,
            flash_unlock: 0,
            general: 0,
            privileged: 0xFFFFFF,
            protected_start: 0xD1887C,
            protected_end: 0xD1887C,
            stack_limit: 0,
            read_battery_status: 0,
            set_battery_status: BATTERY_LEVEL_4,
            battery_charging: false,
            protection_status: 0,
        }
    }

    /// Every port that a snapshot restores by writing it holds a value its
    /// write leaves: power, CPU speed, control flags, unlock status and USB
    /// control within their writable bits, and the LCD enable nibble doubled.
    /// The power-on state is settled and every port write keeps it so
    /// (`lemma_settled_kept`).
    pub open spec fn settled(self) -> bool {
        &&& self.power & 0x93 == self.power
        &&& self.cpu_speed & 0x13 == self.cpu_speed
        &&& self.control_flags & 0x1F == self.control_flags
        &&& self.unlock_status & 0x07 == self.unlock_status
        &&& self.lcd_enable == ((self.lcd_enable & 0x0F) << 4u8) | (self.lcd_enable & 0x0F)
        &&& self.usb_control & 0x03 == self.usb_control
    }

    /// The value a port read returns.
    pub open spec fn port(self, addr: u32) -> u8 {
        if addr == 0x00 {
            self.power
        } else if addr == 0x01 {
            self.cpu_speed
        } else if addr == 0x02 {
            0
        } else if addr == 0x03 {
            self.device_type
        } else if addr == 0x05 {
            self.control_flags
        } else if addr == 0x06 {
            self.unlock_status
        } else if addr == 0x07 {
            self.battery_config
        } else if addr == 0x08 {
            0x7F
        } else if addr == 0x09 {
            self.panel_control
        } else if addr == 0x0A {
            self.battery_check
        } else if addr == 0x0B {
            self.battery_charging_port | (if self.battery_charging { 2u8 } else { 0u8 })
        } else if addr == 0x0C {
            self.battery_reset
        } else if addr == 0x0D {
            self.lcd_enable
        } else if addr == 0x0F {
            self.usb_control | 0xC0
        } else if addr == 0x1C {
            0x80
        } else if addr == 0x28 {
            self.flash_unlock
        } else if addr == 0x29 {
            self.general
        } else if 0x1D <= addr <= 0x1F {
            byte24(self.privileged, addr - 0x1D)
        } else if 0x20 <= addr <= 0x22 {
            byte24(self.protected_start, addr - 0x20)
        } else if 0x23 <= addr <= 0x25 {
            byte24(self.protected_end, addr - 0x23)
        } else if 0x3A <= addr <= 0x3C {
            byte24(self.stack_limit, addr - 0x3A)
        } else if addr == 0x3D {
            self.protection_status
        } else {
            0
        }
    }

    /// The state after a port write.
    pub open spec fn written(self, addr: u32, value: u8) -> Self {
        if addr == 0x00 {
            ControlPorts { power: value & 0x93, ..self }
        } else if addr == 0x01 {
            ControlPorts { cpu_speed: value & 0x13, cpu_speed_written: true, ..self }
        } else if addr == 0x05 {
            ControlPorts { control_flags: value & 0x1F, ..self }
        } else if addr == 0x06 {
            ControlPorts {
                unlock_status: value & 0x07,
                flash_unlock: if (value & 0x04) == 0 {
                    self.flash_unlock & !8u8
                } else {
                    self.flash_unlock
                },
                ..self
            }
        } else if addr == 0x07 {
            ControlPorts { battery_config: value, ..self }
        } else if addr == 0x09 {
            ControlPorts { panel_control: value, ..self }
        } else if addr == 0x0A {
            ControlPorts { battery_check: value, ..self }
        } else if addr == 0x0B {
            ControlPorts { battery_charging_port: value, ..self }
        } else if addr == 0x0C {
            ControlPorts { battery_reset: value, ..self }
        } else if addr == 0x0D {
            ControlPorts { lcd_enable: ((value & 0x0F) << 4u8) | (value & 0x0F), ..self }
        } else if addr == 0x0F {
            ControlPorts { usb_control: value & 0x03, ..self }
        } else if addr == 0x28 {
            ControlPorts { flash_unlock: (self.flash_unlock | 5) & value, ..self }
        } else if addr == 0x29 {
            ControlPorts { general: value & 0x01, ..self }
        } else if 0x1D <= addr <= 0x1F {
            ControlPorts { privileged: with_byte24(self.privileged, addr - 0x1D, value), ..self }
        } else if 0x20 <= addr <= 0x22 {
            ControlPorts {
                protected_start: with_byte24(self.protected_start, addr - 0x20, value),
                ..self
            }
        } else if 0x23 <= addr <= 0x25 {
            ControlPorts {
                protected_end: with_byte24(self.protected_end, addr - 0x23, value),
                ..self
            }
        } else if 0x3A <= addr <= 0x3C {
            ControlPorts { stack_limit: with_byte24(self.stack_limit, addr - 0x3A, value), ..self }
        } else if addr == 0x3E {
            ControlPorts { protection_status: self.protection_status & !value, ..self }
        } else {
            self
        }
    }

    /// CPU clock rate in MHz for a speed setting.
    pub open spec fn rate_mhz(speed: u8) -> u32 {
        if speed == 0 {
            6
        } else if speed == 1 {
            12
        } else if speed == 2 {
            24
        } else {
            48
        }
    }

    /// Create the control ports with their power-on values.
    pub fn new() -> (r: Self)
        ensures
            r == Self::initial(),
    {
        ControlPorts {
            power: 0x00,
            cpu_speed: MHZ_6,
            prev_clock_mhz: 48,
            cpu_speed_written: false,
            device_type: 0x00,
            control_flags: 0x00,
            unlock_status: 0x00,
            battery_config: 0x00,
            panel_control: 0x00,
            battery_check: 0x00,
            battery_charging_port: 0x00,
            battery_reset: 0x00,
            lcd_enable: 0x00,
            usb_control: 0x02,
            flash_unlock: 0x00,
            general: 0x00,
            privileged: 0xFFFFFF,
            protected_start: 0xD1887C,
            protected_end: 0xD1887C,
            stack_limit: 0,
            read_battery_status: 0,
            set_battery_status: BATTERY_LEVEL_4,
            battery_charging: false,
            protection_status: 0,
        }
    }

    /// Reset the control ports to their power-on values.
    pub fn reset(&mut self)
        ensures
            *final(self) == Self::initial(),
    {
        *self = Self::new();
    }

    /// Read a control port byte (address relative to 0xE00000).
    pub fn read(&self, addr: u32) -> (r: u8)
        ensures
            r == self.port(addr),
    {
        match addr {
            0x00 => self.power,
            0x01 => self.cpu_speed,
            0x02 => 0,
            0x03 => self.device_type,
            0x05 => self.control_flags,
            0x06 => self.unlock_status,
            0x07 => self.battery_config,
            0x08 => 0x7F,
            0x09 => self.panel_control,
            0x0A => self.battery_check,
            0x0B => self.battery_charging_port | (if self.battery_charging {
                2u8
            } else {
                0u8
            }),
            0x0C => self.battery_reset,
            0x0D => self.lcd_enable,
            0x0F => self.usb_control | 0xC0,
            0x1C => 0x80,
            0x28 => self.flash_unlock,
            0x29 => self.general,
            0x1D => self.privileged as u8,
            0x1E => (self.privileged >> 8) as u8,
            0x1F => (self.privileged >> 16) as u8,
            0x20 => self.protected_start as u8,
            0x21 => (self.protected_start >> 8) as u8,
            0x22 => (self.protected_start >> 16) as u8,
            0x23 => self.protected_end as u8,
            0x24 => (self.protected_end >> 8) as u8,
            0x25 => (self.protected_end >> 16) as u8,
            0x3A => self.stack_limit as u8,
            0x3B => (self.stack_limit >> 8) as u8,
            0x3C => (self.stack_limit >> 16) as u8,
            0x3D => self.protection_status,
            _ => 0x00,
        }
    }

    /// Write a control port byte (address relative to 0xE00000).
    pub fn write(&mut self, addr: u32, value: u8)
        ensures
            *final(self) == old(self).written(addr, value),
    {
        match addr {
            0x00 => {
                self.power = value & 0x93;
            },
            0x01 => {
                self.cpu_speed = value & 0x13;
                self.cpu_speed_written = true;
            },
            0x05 => {
                self.control_flags = value & 0x1F;
            },
            0x06 => {
                self.unlock_status = value & 0x07;
                if !self.protected_ports_unlocked() {
                    self.flash_unlock = self.flash_unlock & !8u8;
                }
                proof {
                    assert((value & 0x07) & 4 == value & 4) by (bit_vector);
                }
            },
            0x07 => {
                self.battery_config = value;
            },
            0x09 => {
                self.panel_control = value;
            },
            0x0A => {
                self.battery_check = value;
            },
            0x0B => {
                self.battery_charging_port = value;
            },
            0x0C => {
                self.battery_reset = value;
            },
            0x0D => {
                self.lcd_enable = (value & 0x0F) << 4 | (value & 0x0F);
            },
            0x0F => {
                self.usb_control = value & 0x03;
            },
            0x28 => {
                self.flash_unlock = (self.flash_unlock | 5) & value;
            },
            0x29 => {
                self.general = value & 0x01;
            },
            0x1D => {
                self.privileged = (self.privileged & 0xFFFF00) | (value as u32);
            },
            0x1E => {
                self.privileged = (self.privileged & 0xFF00FF) | ((value as u32) << 8);
            },
            0x1F => {
                self.privileged = (self.privileged & 0x00FFFF) | ((value as u32) << 16);
            },
            0x20 => {
                self.protected_start = (self.protected_start & 0xFFFF00) | (value as u32);
            },
            0x21 => {
                self.protected_start = (self.protected_start & 0xFF00FF) | ((value as u32) << 8);
            },
            0x22 => {
                self.protected_start = (self.protected_start & 0x00FFFF) | ((value as u32) << 16);
            },
            0x23 => {
                self.protected_end = (self.protected_end & 0xFFFF00) | (value as u32);
            },
            0x24 => {
                self.protected_end = (self.protected_end & 0xFF00FF) | ((value as u32) << 8);
            },
            0x25 => {
                self.protected_end = (self.protected_end & 0x00FFFF) | ((value as u32) << 16);
            },
            0x3A => {
                self.stack_limit = (self.stack_limit & 0xFFFF00) | (value as u32);
            },
            0x3B => {
                self.stack_limit = (self.stack_limit & 0xFF00FF) | ((value as u32) << 8);
            },
            0x3C => {
                self.stack_limit = (self.stack_limit & 0x00FFFF) | ((value as u32) << 16);
            },
            0x3E => {
                self.protection_status = self.protection_status & !value;
            },
            _ => {},
        }
    }

    /// Current CPU speed setting (bits 1:0 of the port).
    pub fn cpu_speed(&self) -> (r: u8)
        ensures
            r == self.cpu_speed & 0x03,
            r <= 3,
    {
        let s = self.cpu_speed;
        proof {
            crate::bits::lemma_mask_facts();
        }
        self.cpu_speed & 0x03
    }

    /// If the CPU speed port was written since the last call, clear that flag,
    /// record the new rate as the scheduler's rate, and return
    /// `(true, new_rate_mhz, old_rate_mhz)`; otherwise return `(false, 1, 1)`.
    pub fn cpu_speed_changed(&mut self) -> (r: (bool, u32, u32))
        ensures
            old(self).cpu_speed_written ==> r == (true, Self::rate_mhz(old(self).cpu_speed & 3),
                old(self).prev_clock_mhz) && *final(self) == (ControlPorts {
                cpu_speed_written: false,
                prev_clock_mhz: Self::rate_mhz(old(self).cpu_speed & 3),
                ..*old(self)
            }),
            !old(self).cpu_speed_written ==> r == (false, 1u32, 1u32) && *final(self) == *old(
                self,
            ),
    {
        if self.cpu_speed_written {
            self.cpu_speed_written = false;
            let new_mhz = self.clock_rate_mhz();
            let old_mhz = self.prev_clock_mhz;
            self.prev_clock_mhz = new_mhz;
            (true, new_mhz, old_mhz)
        } else {
            (false, 1, 1)
        }
    }

    /// CPU clock rate in MHz for the current speed setting.
    pub fn clock_rate_mhz(&self) -> (r: u32)
        ensures
            r == Self::rate_mhz(self.cpu_speed & 3),
    {
        match self.cpu_speed() {
            0 => 6,
            1 => 12,
            2 => 24,
            _ => 48,
        }
    }

    /// LCD enabled via port 0x0D.
    pub fn lcd_enabled(&self) -> (r: bool)
        ensures
            r == (self.lcd_enable != 0),
    {
        self.lcd_enable != 0
    }

    /// LCD enable flag in the control flags (port 0x05 bit 4).
    pub fn lcd_flag_enabled(&self) -> (r: bool)
        ensures
            r == (self.control_flags & 0x10 != 0),
    {
        self.control_flags & 0x10 != 0
    }

    /// Protected ports unlocked (bit 2 of port 0x06).
    pub fn protected_ports_unlocked(&self) -> (r: bool)
        ensures
            r == (self.unlock_status & 4 != 0),
    {
        (self.unlock_status & 4) != 0
    }

    /// Flash fully unlocked (bits 2 and 3 of port 0x28).
    pub fn flash_unlocked(&self) -> (r: bool)
        ensures
            r == (self.flash_unlock & 0x0C == 0x0C),
    {
        (self.flash_unlock & 0x0C) == 0x0C
    }

    /// Set the flash ready bit (bit 3 of port 0x28) only.
    pub fn set_flash_ready(&mut self)
        ensures
            *final(self) == (ControlPorts { flash_unlock: old(self).flash_unlock | 8, ..*old(self) }),
    {
        self.flash_unlock = self.flash_unlock | 0x08;
    }

    /// Clear the flash ready bit (bit 3 of port 0x28) only.
    pub fn clear_flash_ready(&mut self)
        ensures
            *final(self) == (ControlPorts {
                flash_unlock: old(self).flash_unlock & !8u8,
                ..*old(self)
            }),
    {
        self.flash_unlock = self.flash_unlock & !8u8;
    }

    /// Flash ready bit (bit 3 of port 0x28).
    pub fn flash_ready(&self) -> (r: bool)
        ensures
            r == (self.flash_unlock & 8 != 0),
    {
        (self.flash_unlock & 8) != 0
    }

    /// Raw flash unlock port value.
    pub fn read_flash_unlock(&self) -> (r: u8)
        ensures
            r == self.flash_unlock,
    {
        self.flash_unlock
    }

    /// The privileged boundary: code with PC above it is unprivileged.
    pub fn privileged_boundary(&self) -> (r: u32)
        ensures
            r == self.privileged,
    {
        self.privileged
    }

    pub fn protected_start(&self) -> (r: u32)
        ensures
            r == self.protected_start,
    {
        self.protected_start
    }

    pub fn protected_end(&self) -> (r: u32)
        ensures
            r == self.protected_end,
    {
        self.protected_end
    }

    /// A PC is unprivileged when it lies above the privileged boundary and
    /// outside the protected range.
    pub fn is_unprivileged(&self, pc: u32) -> (r: bool)
        ensures
            r == (pc > self.privileged && (pc < self.protected_start || pc > self.protected_end)),
    {
        pc > self.privileged && (pc < self.protected_start || pc > self.protected_end)
    }

    pub fn stack_limit(&self) -> (r: u32)
        ensures
            r == self.stack_limit,
    {
        self.stack_limit
    }

    /// Record a stack limit violation (bit 0); an NMI should always fire.
    pub fn set_stack_violation(&mut self) -> (r: bool)
        ensures
            r,
            *final(self) == (ControlPorts {
                protection_status: old(self).protection_status | 1,
                ..*old(self)
            }),
    {
        self.protection_status = self.protection_status | 1;
        true
    }

    /// Record a protected memory violation (bit 1); an NMI should always fire.
    pub fn set_protected_violation(&mut self) -> (r: bool)
        ensures
            r,
            *final(self) == (ControlPorts {
                protection_status: old(self).protection_status | 2,
                ..*old(self)
            }),
    {
        self.protection_status = self.protection_status | 2;
        true
    }

    /// The listing of every port that `dump` produces: one line per port,
    /// with its number, name and value in hexadecimal, and the flags derived
    /// from it.
    pub open spec fn dump_text(self) -> Seq<char> {
        "=== Control Ports (0xE000xx / 0xFF00xx) ===\n"@
        + "0x00 POWER:          0x"@
        + hex_text(self.power as nat, 2)
        + "\n"@
        + "0x01 CPU_SPEED:      0x"@
        + hex_text(self.cpu_speed as nat, 2)
        + " ("@
        + dec_text(mhz_of(self.cpu_speed) as nat)
        + "MHz)\n"@
        + "0x02 BATTERY_STATUS: 0x"@
        + hex_text(self.read_battery_status as nat, 2)
        + " (FSM state, setBattery="@
        + dec_text(self.set_battery_status as nat)
        + ")\n"@
        + "0x03 DEVICE_TYPE:    0x"@
        + hex_text(self.device_type as nat, 2)
        + "\n"@
        + "0x05 CONTROL_FLAGS:  0x"@
        + hex_text(self.control_flags as nat, 2)
        + "\n"@
        + "0x06 UNLOCK_STATUS:  0x"@
        + hex_text(self.unlock_status as nat, 2)
        + " (protected_unlocked="@
        + bool_text(self.unlock_status & 4 != 0)
        + ")\n"@
        + "0x07 BATTERY_CONFIG: 0x"@
        + hex_text(self.battery_config as nat, 2)
        + "\n"@
        + "0x08 FIXED_7F:       0x7F (always)\n"@
        + "0x09 PANEL_CONTROL:  0x"@
        + hex_text(self.panel_control as nat, 2)
        + "\n"@
        + "0x0A BATTERY_CHECK:  0x"@
        + hex_text(self.battery_check as nat, 2)
        + "\n"@
        + "0x0B BATTERY_CHARG:  0x"@
        + hex_text(self.battery_charging_port as nat, 2)
        + " (charging="@
        + bool_text(self.battery_charging)
        + ")\n"@
        + "0x0C BATTERY_RESET:  0x"@
        + hex_text(self.battery_reset as nat, 2)
        + "\n"@
        + "0x0D LCD_ENABLE:     0x"@
        + hex_text(self.lcd_enable as nat, 2)
        + " (lcd_enabled="@
        + bool_text(self.lcd_enable != 0)
        + ")\n"@
        + "0x0F USB_CONTROL:    0x"@
        + hex_text(self.usb_control as nat, 2)
        + " (stored) -> 0x"@
        + hex_text((self.usb_control | 0xC0) as nat, 2)
        + " (read with USB status)\n"@
        + "0x1C FIXED_80:       0x80 (always)\n"@
        + "0x1D-1F PRIVILEGED:  0x"@
        + hex_text(self.privileged as nat, 6)
        + "\n"@
        + "0x20-22 PROT_START:  0x"@
        + hex_text(self.protected_start as nat, 6)
        + "\n"@
        + "0x23-25 PROT_END:    0x"@
        + hex_text(self.protected_end as nat, 6)
        + "\n"@
        + "0x28 FLASH_UNLOCK:   0x"@
        + hex_text(self.flash_unlock as nat, 2)
        + " (flash_unlocked="@
        + bool_text(self.flash_unlock & 0x0C == 0x0C)
        + ")\n"@
        + "0x29 GENERAL:        0x"@
        + hex_text(self.general as nat, 2)
        + "\n"@
        + "0x3A-3C STACK_LIMIT: 0x"@
        + hex_text(self.stack_limit as nat, 6)
        + "\n"@
    }

    /// A text listing of every port value, for debugging.
    pub fn dump(&self) -> (r: String)
        ensures
            r@ == self.dump_text(),
    {
        let mhz: u32 = if self.cpu_speed == 0 {
            6
        } else if self.cpu_speed == 1 {
            12
        } else if self.cpu_speed == 2 {
            24
        } else if self.cpu_speed == 3 {
            48
        } else {
            0
        };
        let mut s = String::from_str("=== Control Ports (0xE000xx / 0xFF00xx) ===\n");
        s.append("0x00 POWER:          0x");
        push_hex(&mut s, self.power as u32, 2);
        s.append("\n");
        s.append("0x01 CPU_SPEED:      0x");
        push_hex(&mut s, self.cpu_speed as u32, 2);
        s.append(" (");
        push_dec(&mut s, mhz);
        s.append("MHz)\n");
        s.append("0x02 BATTERY_STATUS: 0x");
        push_hex(&mut s, self.read_battery_status as u32, 2);
        s.append(" (FSM state, setBattery=");
        push_dec(&mut s, self.set_battery_status as u32);
        s.append(")\n");
        s.append("0x03 DEVICE_TYPE:    0x");
        push_hex(&mut s, self.device_type as u32, 2);
        s.append("\n");
        s.append("0x05 CONTROL_FLAGS:  0x");
        push_hex(&mut s, self.control_flags as u32, 2);
        s.append("\n");
        s.append("0x06 UNLOCK_STATUS:  0x");
        push_hex(&mut s, self.unlock_status as u32, 2);
        s.append(" (protected_unlocked=");
        push_bool(&mut s, self.protected_ports_unlocked());
        s.append(")\n");
        s.append("0x07 BATTERY_CONFIG: 0x");
        push_hex(&mut s, self.battery_config as u32, 2);
        s.append("\n");
        s.append("0x08 FIXED_7F:       0x7F (always)\n");
        s.append("0x09 PANEL_CONTROL:  0x");
        push_hex(&mut s, self.panel_control as u32, 2);
        s.append("\n");
        s.append("0x0A BATTERY_CHECK:  0x");
        push_hex(&mut s, self.battery_check as u32, 2);
        s.append("\n");
        s.append("0x0B BATTERY_CHARG:  0x");
        push_hex(&mut s, self.battery_charging_port as u32, 2);
        s.append(" (charging=");
        push_bool(&mut s, self.battery_charging);
        s.append(")\n");
        s.append("0x0C BATTERY_RESET:  0x");
        push_hex(&mut s, self.battery_reset as u32, 2);
        s.append("\n");
        s.append("0x0D LCD_ENABLE:     0x");
        push_hex(&mut s, self.lcd_enable as u32, 2);
        s.append(" (lcd_enabled=");
        push_bool(&mut s, self.lcd_enabled());
        s.append(")\n");
        s.append("0x0F USB_CONTROL:    0x");
        push_hex(&mut s, self.usb_control as u32, 2);
        s.append(" (stored) -> 0x");
        push_hex(&mut s, (self.usb_control | 0xC0) as u32, 2);
        s.append(" (read with USB status)\n");
        s.append("0x1C FIXED_80:       0x80 (always)\n");
        s.append("0x1D-1F PRIVILEGED:  0x");
        push_hex(&mut s, self.privileged as u32, 6);
        s.append("\n");
        s.append("0x20-22 PROT_START:  0x");
        push_hex(&mut s, self.protected_start as u32, 6);
        s.append("\n");
        s.append("0x23-25 PROT_END:    0x");
        push_hex(&mut s, self.protected_end as u32, 6);
        s.append("\n");
        s.append("0x28 FLASH_UNLOCK:   0x");
        push_hex(&mut s, self.flash_unlock as u32, 2);
        s.append(" (flash_unlocked=");
        push_bool(&mut s, self.flash_unlocked());
        s.append(")\n");
        s.append("0x29 GENERAL:        0x");
        push_hex(&mut s, self.general as u32, 2);
        s.append("\n");
        s.append("0x3A-3C STACK_LIMIT: 0x");
        push_hex(&mut s, self.stack_limit as u32, 6);
        s.append("\n");
        s
    }
}

/// The clock rate in MHz that `dump` reports for a CPU speed value (0 for
/// values above 3).
pub open spec fn mhz_of(speed: u8) -> u32 {
    if speed == 0 {
        6
    } else if speed == 1 {
        12
    } else if speed == 2 {
        24
    } else if speed == 3 {
        48
    } else {
        0
    }
}

impl Default for ControlPorts {
    fn default() -> (r: Self)
        ensures
            r == Self::initial(),
    {
        Self::new()
    }
}

/// A byte written to one of the 24-bit address registers (privileged
/// boundary, protected range, stack limit) reads back unchanged.
pub proof fn lemma_address_register_write_read(c: ControlPorts, addr: u32, v: u8)
    requires
        0x1D <= addr <= 0x25 || 0x3A <= addr <= 0x3C,
    ensures
        c.written(addr, v).port(addr) == v,
{
    let w = if 0x1D <= addr <= 0x1F {
        c.privileged
    } else if 0x20 <= addr <= 0x22 {
        c.protected_start
    } else if 0x23 <= addr <= 0x25 {
        c.protected_end
    } else {
        c.stack_limit
    };
    assert(((w & 0xFFFF00) | (v as u32)) as u8 == v && (((w & 0xFF00FF) | ((v as u32) << 8u32))
        >> 8u32) as u8 == v && (((w & 0x00FFFF) | ((v as u32) << 16u32)) >> 16u32) as u8 == v)
        by (bit_vector);
}

/// No port write can set the flash ready bit (bit 3 of port 0x28): writes
/// only keep or clear it.
pub proof fn lemma_write_never_sets_flash_ready(c: ControlPorts, addr: u32, v: u8)
    ensures
        c.written(addr, v).flash_unlock & 8 != 0 ==> c.flash_unlock & 8 != 0,
{
    let f = c.flash_unlock;
    assert((((f | 5) & v) & 8 != 0 ==> f & 8 != 0) && (f & !8u8) & 8 == 0) by (bit_vector);
}

/// The CPU speed written to port 0x01 is reported, as its low two bits, by
/// the speed query, and the write is flagged for the scheduler.
pub proof fn lemma_cpu_speed_write(c: ControlPorts, v: u8)
    ensures
        c.written(0x01, v).cpu_speed & 3 == v & 3,
        c.written(0x01, v).cpu_speed_written,
{
    assert((v & 0x13) & 3 == v & 3) by (bit_vector);
}

/// Port 0x0D duplicates the low nibble of the written byte into both
/// nibbles, so the LCD counts as enabled exactly when that nibble is nonzero.
pub proof fn lemma_lcd_enable_write(c: ControlPorts, v: u8)
    ensures
        c.written(0x0D, v).lcd_enable >> 4u8 == v & 0x0F,
        c.written(0x0D, v).lcd_enable & 0x0F == v & 0x0F,
        (c.written(0x0D, v).lcd_enable != 0) == (v & 0x0F != 0),
{
    assert((((v & 0x0F) << 4u8) | (v & 0x0F)) >> 4u8 == v & 0x0F && (((v & 0x0F) << 4u8) | (v
        & 0x0F)) & 0x0F == v & 0x0F && ((((v & 0x0F) << 4u8) | (v & 0x0F)) != 0) == (v & 0x0F
        != 0)) by (bit_vector);
}

/// Byte facts behind port write-back: masking twice is masking once, a
/// doubled nibble doubled again is unchanged, the USB status bits added on
/// read and masked off on write leave the stored bits, a bit that fits
/// reads back through its mask, and a flash unlock write keeps bits 0 and 2.
pub proof fn lemma_port_bits()
    by (bit_vector)
    ensures
        forall|x: u8, m: u8| #[trigger] ((x & m) & m) == x & m,
        forall|x: u8|
            #[trigger] ((((((x & 0x0F) << 4u8) | (x & 0x0F)) & 0x0F) << 4u8) | ((((x & 0x0F)
                << 4u8) | (x & 0x0F)) & 0x0F)) == ((x & 0x0F) << 4u8) | (x & 0x0F),
        forall|x: u8| x & 3 == x ==> #[trigger] (((x | 0xC0) & 3) | 0xC0) == x | 0xC0,
        forall|x: u8| x <= 1 ==> #[trigger] (x & 1) == x,
        forall|x: u8, y: u8| x & 0xFA == 0 ==> #[trigger] ((y | 5) & x) == x,
        0u8 & 0x93 == 0u8 && 0u8 & 0x13 == 0u8 && 0u8 & 0x1F == 0u8 && 0u8 & 0x07 == 0u8
            && ((0u8 & 0x0F) << 4u8) | (0u8 & 0x0F) == 0u8 && 2u8 & 0x03 == 2u8
            && 6u8 & 0x0F == 6u8,
{
}

/// The power-on state is settled, and every port write keeps a state
/// settled.
pub proof fn lemma_settled_kept(c: ControlPorts, addr: u32, v: u8)
    ensures
        ControlPorts::initial().settled(),
        c.settled() ==> c.written(addr, v).settled(),
{
    lemma_port_bits();
    assert(((((((v & 0x0F) << 4u8) | (v & 0x0F)) & 0x0F) << 4u8) | ((((v & 0x0F) << 4u8) | (v
        & 0x0F)) & 0x0F)) == ((v & 0x0F) << 4u8) | (v & 0x0F));
    assert((v & 0x93) & 0x93 == v & 0x93);
    assert((v & 0x13) & 0x13 == v & 0x13);
    assert((v & 0x1F) & 0x1F == v & 0x1F);
    assert((v & 0x07) & 0x07 == v & 0x07);
    assert((v & 0x03) & 0x03 == v & 0x03);
}

/// Writing the three bytes of a 24-bit register reads back those bytes,
/// whatever the register held.
pub proof fn lemma_byte24_written(w: u32, x: u8, y: u8, z: u8)
    ensures
        ({
            let r = with_byte24(with_byte24(with_byte24(w, 0, x), 1, y), 2, z);
            byte24(r, 0) == x && byte24(r, 1) == y && byte24(r, 2) == z
        }),
{
    assert(({
        let r0 = (w & 0xFFFF00) | (x as u32);
        let r1 = (r0 & 0xFF00FF) | ((y as u32) << 8u32);
        let r = (r1 & 0x00FFFF) | ((z as u32) << 16u32);
        r as u8 == x && (r >> 8u32) as u8 == y && (r >> 16u32) as u8 == z
    })) by (bit_vector);
}

/// At power-on all code is privileged: no 24-bit PC is above the boundary.
pub proof fn lemma_power_on_all_privileged(pc: u32)
    requires
        pc <= 0xFFFFFF,
    ensures
        !(pc > ControlPorts::initial().privileged && (pc < ControlPorts::initial().protected_start
            || pc > ControlPorts::initial().protected_end)),
{
}

} // verus!
