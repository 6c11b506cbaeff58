//! Verified core of a TI-84 Plus CE emulator: the memory-mapped peripheral
//! controllers, the event scheduler and the TI variable-file parser.

pub mod bits;
pub mod peripherals;
pub mod scheduler;
pub mod text;
pub mod ti_file;
pub mod framebuffer;
