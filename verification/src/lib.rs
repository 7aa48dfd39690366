//! Emulation core for the HP-48 S/SX and G/GX calculators at the level of
//! the Saturn 4-bit processor: the nibble-field ALU and processor actions,
//! the 20-bit MMU with its memory-mapped device file and CRC side channel,
//! the instruction decoder, the display diff renderer, keyboard, speaker,
//! timers and state persistence.

pub mod types;
pub mod cpu;
pub mod alu;
pub mod actions;
pub mod decode;
pub mod device;
pub mod memory;
pub mod display;
pub mod emulator;
pub mod keyboard;
pub mod persist;
pub mod scheduler;
pub mod serial;
pub mod speaker;
pub mod timer;
