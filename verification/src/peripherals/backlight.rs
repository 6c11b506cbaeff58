//! LCD backlight controller.
//!
//! Controls LCD backlight brightness via PWM. When brightness is 0, the screen
//! appears black even though the LCD controller and VRAM remain powered.
use vstd::prelude::*;

verus! {

/// Backlight controller: one brightness register (0x00 = off, 0xFF = full).
#[derive(Debug, Clone)]
pub struct Backlight {
    /// Backlight brightness level, register at offset 0x24.
    pub brightness: u8,
}

impl Backlight {
    /// Full brightness at power-on.
    pub fn new() -> (r: Self)
        ensures
            r.brightness == 0xFF,
    {
        Backlight { brightness: 0xFF }
    }

    /// Back to full brightness.
    pub fn reset(&mut self)
        ensures
            final(self).brightness == 0xFF,
    {
        self.brightness = 0xFF;
    }

    /// Read from a backlight register: offset 0x24 is the brightness, all else reads 0.
    pub fn read(&self, offset: u32) -> (r: u8)
        ensures
            r == (if offset == 0x24 { self.brightness } else { 0u8 }),
    {
        match offset {
            0x24 => self.brightness,
            _ => 0x00,
        }
    }

    /// Write to a backlight register. Offsets 0x21, 0x22, 0x25 and 0x26 switch
    /// the backlight off when written with a nonzero value; 0x24 sets the brightness.
    pub fn write(&mut self, offset: u32, value: u8)
        ensures
            final(self).brightness == (if offset == 0x24 {
                value
            } else if (offset == 0x21 || offset == 0x22 || offset == 0x25 || offset == 0x26)
                && value != 0 {
                0u8
            } else {
                old(self).brightness
            }),
    {
        match offset {
            0x21 | 0x22 | 0x25 | 0x26 => {
                if value != 0 {
                    self.brightness = 0;
                }
            },
            0x24 => {
                self.brightness = value;
            },
            _ => {},
        }
    }

    /// Current brightness level (0-255).
    pub fn brightness(&self) -> (r: u8)
        ensures
            r == self.brightness,
    {
        self.brightness
    }

    /// The backlight is effectively off below 5% brightness.
    pub fn is_off(&self) -> (r: bool)
        ensures
            r == (self.brightness < 13),
    {
        self.brightness < 13
    }
}

impl Default for Backlight {
    fn default() -> (r: Self)
        ensures
            r.brightness == 0xFF,
    {
        Self::new()
    }
}

} // verus!
