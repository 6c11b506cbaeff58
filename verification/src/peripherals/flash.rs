//! Flash controller.
//!
//! Memory-mapped at 0xE10000 (port offset 0x010000 from 0xE00000). It manages
//! flash enable, size configuration, memory mapping and wait states, and caches
//! the mapping it derives from them.
use vstd::prelude::*;

verus! {

/// Flash controller registers and the mapping cached from them.
#[derive(Debug, Clone)]
pub struct FlashController {
    /// Flash enable (bit 0 writable).
    pub enable: u8,
    /// Size configuration.
    pub size_config: u8,
    /// Map selection (bits 0-3 writable).
    pub map_select: u8,
    /// Wait states added to the base 6 cycles.
    pub wait_states: u8,
    /// Control flag (bit 0 writable).
    pub control: u8,
    /// Cached: whether flash mapping is active.
    pub mapping_enabled: bool,
    /// Cached: mapped flash size in bytes.
    pub cached_mapped_bytes: u32,
    /// Cached: total wait cycles (base 6 plus wait states, saturating).
    pub cached_total_wait_cycles: u8,
}

/// Total wait cycles: 6 plus the wait states, saturating at 255.
pub open spec fn total_wait(wait_states: u8) -> u8 {
    if 6 + wait_states > 255 {
        255
    } else {
        (6 + wait_states) as u8
    }
}

/// The map index that takes effect: values 8 and above fall back to 0.
pub open spec fn effective_map(map_select: u8) -> u32 {
    if map_select & 0x0F < 8 {
        (map_select & 0x0F) as u32
    } else {
        0
    }
}

impl FlashController {
    /// Whether the registers enable the mapping.
    pub open spec fn mapping_on(self) -> bool {
        (self.enable & 1) != 0 && self.size_config <= 0x3F
    }

    /// Mapped flash size: 0x10000 << map when mapping is on, else 0.
    pub open spec fn mapped_size(self) -> u32 {
        if self.mapping_on() {
            0x10000u32 << effective_map(self.map_select)
        } else {
            0
        }
    }

    /// The cache agrees with the registers, and the enable register holds a
    /// single bit (as every write leaves it).
    pub open spec fn wf(self) -> bool {
        &&& self.enable <= 1
        &&& self.mapping_enabled == self.mapping_on()
        &&& self.cached_mapped_bytes == self.mapped_size()
        &&& self.cached_total_wait_cycles == total_wait(self.wait_states)
    }

    /// The power-on register values.
    pub open spec fn initial_registers(self) -> bool {
        self.enable == 1 && self.size_config == 0 && self.map_select == 6 && self.wait_states == 4
            && self.control == 0
    }

    /// The register value a read returns (unmapped registers read 0xFF).
    pub open spec fn register(self, addr: u32) -> u8 {
        if addr == 0x00 {
            self.enable
        } else if addr == 0x01 {
            self.size_config
        } else if addr == 0x02 {
            self.map_select
        } else if addr == 0x05 {
            self.wait_states
        } else if addr == 0x08 {
            self.control
        } else {
            0xFF
        }
    }

    /// Whether two controllers hold the same registers.
    pub open spec fn same_registers(self, other: Self) -> bool {
        self.enable == other.enable && self.size_config == other.size_config && self.map_select
            == other.map_select && self.wait_states == other.wait_states && self.control
            == other.control
    }

    /// The registers after a write (the cache is then derived from them).
    pub open spec fn registers_written(self, addr: u32, value: u8) -> Self {
        if addr == 0x00 {
            FlashController { enable: value & 1, ..self }
        } else if addr == 0x01 {
            FlashController { size_config: value, ..self }
        } else if addr == 0x02 {
            FlashController { map_select: value & 0x0F, ..self }
        } else if addr == 0x05 {
            FlashController { wait_states: value, ..self }
        } else if addr == 0x08 {
            FlashController { control: value & 1, ..self }
        } else {
            self
        }
    }

    /// The controller with its cache derived from its registers.
    pub open spec fn cached(self) -> Self {
        FlashController {
            mapping_enabled: self.mapping_on(),
            cached_mapped_bytes: self.mapped_size(),
            cached_total_wait_cycles: total_wait(self.wait_states),
            ..self
        }
    }

    /// The power-on state: enabled, map 6, 4 wait states, the cache derived.
    pub open spec fn initial() -> Self {
        FlashController {
            enable: 1,
            size_config: 0,
            map_select: 6,
            wait_states: 4,
            control: 0,
            mapping_enabled: false,
            cached_mapped_bytes: 0,
            cached_total_wait_cycles: 0,
        }.cached()
    }

    /// Create a flash controller with its power-on values: enabled, map 6,
    /// 4 wait states, and the mapping derived from them.
    pub fn new() -> (r: Self)
        ensures
            r.wf(),
            r.initial_registers(),
            r == Self::initial(),
    {
        let mut c = FlashController {
            enable: 0x01,
            size_config: 0x00,
            map_select: 0x06,
            wait_states: 0x04,
            control: 0x00,
            mapping_enabled: false,
            cached_mapped_bytes: 0,
            cached_total_wait_cycles: 10,
        };
        c.recalculate_mapping();
        c
    }

    /// Reset to the power-on values.
    pub fn reset(&mut self)
        ensures
            final(self).wf(),
            final(self).initial_registers(),
            *final(self) == Self::initial(),
    {
        *self = Self::new();
    }

    /// Recompute the cached mapping from the registers.
    fn recalculate_mapping(&mut self)
        requires
            old(self).enable <= 1,
        ensures
            final(self).wf(),
            final(self).same_registers(*old(self)),
    {
        self.mapping_enabled = (self.enable & 0x01) != 0 && self.size_config <= 0x3F;
        if self.mapping_enabled {
            let map = self.map_select & 0x0F;
            let effective_map: u8 = if map < 8 {
                map
            } else {
                0
            };
            proof {
                lemma_window_bytes(effective_map);
            }
            self.cached_mapped_bytes = 0x10000u32 << (effective_map as u32);
        } else {
            self.cached_mapped_bytes = 0;
        }
        self.cached_total_wait_cycles = 6u8.saturating_add(self.wait_states);
    }

    /// Cached: whether flash mapping is active.
    pub fn is_mapping_enabled(&self) -> (r: bool)
        ensures
            r == self.mapping_enabled,
    {
        self.mapping_enabled
    }

    /// Cached mapped flash size in bytes.
    pub fn cached_mapped_bytes(&self) -> (r: u32)
        ensures
            r == self.cached_mapped_bytes,
    {
        self.cached_mapped_bytes
    }

    /// Cached total wait cycles.
    pub fn cached_total_wait_cycles(&self) -> (r: u8)
        ensures
            r == self.cached_total_wait_cycles,
    {
        self.cached_total_wait_cycles
    }

    /// Flash enabled (bit 0).
    pub fn is_enabled(&self) -> (r: bool)
        ensures
            r == (self.enable & 1 != 0),
    {
        self.enable & 0x01 != 0
    }

    /// Configured wait states.
    pub fn wait_states(&self) -> (r: u8)
        ensures
            r == self.wait_states,
    {
        self.wait_states
    }

    /// Total wait cycles: 6 plus the wait states, saturating at 255.
    pub fn total_wait_cycles(&self) -> (r: u8)
        ensures
            r == total_wait(self.wait_states),
    {
        6u8.saturating_add(self.wait_states)
    }

    /// Map selection register.
    pub fn map_select(&self) -> (r: u8)
        ensures
            r == self.map_select,
    {
        self.map_select
    }

    /// Mapped flash size in bytes computed from the registers: 0 when the
    /// enable register is 0 or the size configuration exceeds 0x3F, else
    /// 0x10000 << map (maps 8 and above count as 0).
    pub fn mapped_bytes(&self) -> (r: u32)
        ensures
            r == (if self.enable == 0 || self.size_config > 0x3F {
                0u32
            } else {
                0x10000u32 << effective_map(self.map_select)
            }),
    {
        let map = self.map_select & 0x0F;
        if self.enable == 0 || self.size_config > 0x3F {
            0
        } else {
            let e: u8 = if map < 8 {
                map
            } else {
                0
            };
            proof {
                lemma_window_bytes(e);
            }
            0x10000u32 << (e as u32)
        }
    }

    /// Read a register byte.
    pub fn read(&self, addr: u32) -> (r: u8)
        ensures
            r == self.register(addr),
    {
        match addr {
            0x00 => self.enable,
            0x01 => self.size_config,
            0x02 => self.map_select,
            0x05 => self.wait_states,
            0x08 => self.control,
            _ => 0xFF,
        }
    }

    /// Write a register byte; writes to enable, size, map and wait states
    /// recompute the cached mapping.
    pub fn write(&mut self, addr: u32, value: u8)
        requires
            old(self).wf(),
        ensures
            final(self).wf(),
            final(self).same_registers(old(self).registers_written(addr, value)),
            addr == 0x08 || !(addr == 0x00 || addr == 0x01 || addr == 0x02 || addr == 0x05)
                ==> *final(self) == old(self).registers_written(addr, value),
            *final(self) == old(self).registers_written(addr, value).cached(),
    {
        match addr {
            0x00 => {
                proof {
                    crate::bits::lemma_mask_facts();
                }
                self.enable = value & 0x01;
                self.recalculate_mapping();
            },
            0x01 => {
                self.size_config = value;
                self.recalculate_mapping();
            },
            0x02 => {
                self.map_select = value & 0x0F;
                self.recalculate_mapping();
            },
            0x05 => {
                self.wait_states = value;
                self.recalculate_mapping();
            },
            0x08 => {
                self.control = value & 0x01;
            },
            _ => {},
        }
    }
}

impl Default for FlashController {
    fn default() -> (r: Self)
        ensures
            r.wf(),
            r.initial_registers(),
    {
        Self::new()
    }
}

/// A mapped window of 64 KiB shifted by a map select below 8 spans at most
/// 8 MiB.
proof fn lemma_window_bytes(e: u8)
    requires
        e < 8,
    ensures
        0x10000u32 << (e as u32) <= 0x800000u32,
{
    assert(0x10000u32 << (e as u32) <= 0x800000u32) by (bit_vector)
        requires
            e < 8,
    ;
}

/// The cached mapping always agrees with the one computed from the
/// registers: the cached size equals `mapped_bytes`, the cached wait cycles
/// equal `total_wait_cycles`, and the mapping flag agrees with the enable bit
/// whenever the size configuration is valid.
pub proof fn lemma_cache_matches_computed(f: FlashController)
    requires
        f.wf(),
    ensures
        f.cached_mapped_bytes == (if f.enable == 0 || f.size_config > 0x3F {
            0u32
        } else {
            0x10000u32 << effective_map(f.map_select)
        }),
        f.cached_total_wait_cycles == total_wait(f.wait_states),
        f.size_config <= 0x3F ==> f.mapping_enabled == (f.enable & 1 != 0),
{
    let e = f.enable;
    assert(e <= 1 ==> ((e & 1 != 0) == (e != 0))) by (bit_vector);
}

/// A written register reads back as written, masked to its writable bits.
pub proof fn lemma_write_read(f: FlashController, addr: u32, value: u8)
    ensures
        f.registers_written(addr, value).register(addr) == (if addr == 0x00 || addr == 0x08 {
            value & 1
        } else if addr == 0x02 {
            value & 0x0F
        } else if addr == 0x01 || addr == 0x05 {
            value
        } else {
            0xFFu8
        }),
{
}

} // verus!
