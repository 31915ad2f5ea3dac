//! Toolchain core for the LC4 instruction set: instruction model, encoder,
//! decoder, two-pass assembler, object-image framing and a single-step
//! simulator.

pub mod architecture;
pub mod assembler;
pub mod assembler_laws;
pub mod assm_data;
pub mod controller;
pub mod encoder;
pub mod processor;
pub mod processor_laws;
pub mod round_trip;
pub mod word;
