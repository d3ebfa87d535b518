//! A verified instruction-execution core for an 8-bit handheld console processor.

pub mod common;
pub mod enums;
pub mod registers;
pub mod instruction;
pub mod cart;
pub mod ram;
pub mod timer;
pub mod io;
pub mod bus;
pub mod dma;
pub mod cpu;
pub mod fetch;
pub mod stack;
pub mod processor;
pub mod arith;
pub mod bitops;
pub mod interrupts;
pub mod engine;
pub mod laws;
pub mod dbg;
pub mod emu;
