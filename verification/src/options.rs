//! The options that the harness's own decisions read.

use vstd::prelude::*;

use crate::guest::GuestAddr;

verus! {

/// A range of guest addresses, from `start` up to but not including `end`.
#[derive(Clone, Copy, Debug, PartialEq, Eq, Structural)]
pub struct AddrRange {
    pub start: GuestAddr,
    pub end: GuestAddr,
}

/// What was asked for on the command line, as far as the fuzzer's own
/// decisions go.
#[derive(Debug)]
pub struct FuzzerOptions {
    /// Show the terminal user interface instead of plain log lines.
    pub tui: bool,
    /// Let the clients' output through instead of discarding it.
    pub verbose: bool,
    /// Port of the broker.
    pub port: u16,
    /// A single input to run once instead of fuzzing.
    pub rerun_input: Option<String>,
    /// How many iterations to fuzz for before restarting; unbounded if
    /// absent.
    pub iterations: Option<u64>,
    /// Address ranges to collect coverage in, if given.
    pub includes: Option<Vec<AddrRange>>,
    /// Address ranges to collect no coverage in, if given.
    pub excludes: Option<Vec<AddrRange>>,
}

} // verus!
