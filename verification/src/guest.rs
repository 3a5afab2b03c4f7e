//! The vocabulary shared with whoever drives the emulator.

use vstd::prelude::*;

verus! {

/// An address in the guest's virtual address space.
pub type GuestAddr = u64;

/// A value held in a guest register.
pub type GuestReg = u64;

/// Why a blocking run of the guest came back.
#[derive(Clone, Copy, Debug, PartialEq, Eq, Structural)]
pub enum StopReason {
    /// A breakpoint was hit at the given address.
    Breakpoint(GuestAddr),
    /// The emulator ended for a reason of its own.
    End,
    /// The guest asked to hand control back through a backdoor.
    SyncExit,
    /// The guest crashed.
    Crash,
    /// The guest ran out of time.
    Timeout,
    /// The run failed without a reason that the emulator could name.
    Unknown,
}

/// One thing the harness asks of the emulator. Each request is carried out
/// by the caller and answered with one [`GuestReply`].
#[derive(Clone, Copy, Debug, PartialEq, Eq, Structural)]
pub enum GuestRequest {
    /// Arm a breakpoint. Answered with [`GuestReply::Done`].
    SetBreakpoint { addr: GuestAddr },
    /// Disarm a breakpoint. Answered with [`GuestReply::Done`].
    RemoveBreakpoint { addr: GuestAddr },
    /// Resume the guest and block until it stops. Answered with
    /// [`GuestReply::Stopped`].
    Resume,
    /// Read the program counter. Answered with [`GuestReply::Pc`].
    ReadPc,
    /// Map `size` bytes of private, readable and writable guest memory at or
    /// near `hint`. Answered with [`GuestReply::Mapped`].
    MapReadWrite { hint: GuestAddr, size: usize },
}

/// What the emulator reported for one [`GuestRequest`].
#[derive(Clone, Copy, Debug, PartialEq, Eq, Structural)]
pub enum GuestReply {
    /// The request was carried out and has nothing to report.
    Done,
    /// The guest ran and stopped.
    Stopped(StopReason),
    /// The program counter, or nothing if the register could not be read.
    Pc(Option<GuestReg>),
    /// Base of the new mapping, or nothing if the mapping failed.
    Mapped(Option<GuestAddr>),
}

/// A candidate as it fits under a cap of `max_size` bytes: whole if it is no
/// longer than that, its first `max_size` bytes if it is.
pub open spec fn truncated(candidate: Seq<u8>, max_size: nat) -> Seq<u8> {
    if candidate.len() > max_size {
        candidate.take(max_size as int)
    } else {
        candidate
    }
}

/// Bytes to be copied into guest memory.
#[derive(Debug)]
pub struct GuestWrite {
    /// Where the first byte goes.
    pub addr: GuestAddr,
    /// What is written, in order.
    pub bytes: Vec<u8>,
}

} // verus!
