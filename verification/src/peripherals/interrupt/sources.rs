//! Interrupt source bit masks.
use vstd::prelude::*;

verus! {

pub const ON_KEY: u32 = 1u32 << 0u32;

pub const TIMER1: u32 = 1u32 << 1u32;

pub const TIMER2: u32 = 1u32 << 2u32;

pub const TIMER3: u32 = 1u32 << 3u32;

pub const OSTIMER: u32 = 1u32 << 4u32;

pub const KEYPAD: u32 = 1u32 << 10u32;

pub const LCD: u32 = 1u32 << 11u32;

pub const PWR: u32 = 1u32 << 15u32;

pub const WAKE: u32 = 1u32 << 19u32;

} // verus!
