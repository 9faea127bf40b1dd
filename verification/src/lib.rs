//! Program generation for a single-pin blinker driven by a tiny timing
//! co-processor.
//!
//! A message is an ordered sequence of abstract timing units (dot, dash, and
//! the three gap widths). The encoder maps each unit to the (level, duration)
//! pair it stands for; the assembler turns a whole message into a loop-wrapped
//! instruction sequence; the emitter lowers that sequence to co-processor
//! bytecode through the `pio` crate, ready for a hardware loader.

pub mod assembly;
pub mod emitter;
pub mod units;
