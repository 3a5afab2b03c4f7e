//! Verified core of a guest-execution harness for coverage-guided fuzzing.
//!
//! The guest runs inside a CPU emulator that this crate never touches. Every
//! function here maps plain values to plain values: what the emulator
//! reported goes in, what the emulator should do next comes out. The caller
//! owns the emulator handle, carries the requests out and hands the replies
//! back.

pub mod fuzzer;
pub mod guest;
pub mod harness;
pub mod harness_laws;
pub mod instance;
pub mod modules;
pub mod options;
pub mod tokens;
