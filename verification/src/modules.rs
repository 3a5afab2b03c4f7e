//! The pieces that plug into the emulator's per-execution lifecycle.

pub mod exec_meta;
pub mod injector_laws;
pub mod input_injector;
