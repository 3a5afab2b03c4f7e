//! Brings the guest to its entry point, allocates its input region and runs
//! it once per candidate.
//!
//! The harness never holds the emulator. Initialisation and each run are
//! small state machines: a state names the one request that is due, and the
//! reply to that request decides the next state.

use vstd::prelude::*;
use vstd::slice::{slice_subrange, slice_to_vec};

use crate::guest::{
    truncated, GuestAddr, GuestReg, GuestReply, GuestRequest, GuestWrite, StopReason,
};

verus! {

/// Capacity of the guest's input region, and the most that is ever staged
/// of one candidate: 1 MiB.
pub const MAX_INPUT_SIZE: usize = 1_048_576;

/// Offset of the entry address from the load address, x86-64 build.
pub const X86_64_ENTRY_OFFSET: GuestAddr = 0x1384;

/// Offset of the end address from the load address, x86-64 build.
pub const X86_64_END_OFFSET: GuestAddr = 0x14C0;

/// Offset of the entry address from the load address, AArch64 build.
pub const AARCH64_ENTRY_OFFSET: GuestAddr = 0x3634;

/// Offset of the end address from the load address, AArch64 build.
pub const AARCH64_END_OFFSET: GuestAddr = 0x3738;

/// Where the mapping of the input region is asked for: anywhere.
pub const INPUT_REGION_HINT: GuestAddr = 0;

/// The guest's instruction set.
#[derive(Clone, Copy, Debug, PartialEq, Eq, Structural)]
pub enum Arch {
    X86_64,
    Aarch64,
}

/// Why the harness gave up.
#[derive(Clone, Copy, Debug, PartialEq, Eq, Structural)]
pub enum HarnessError {
    /// The binary's symbol table lacks the cleanup routine.
    SymbolNotFound,
    /// An address of interest lies beyond the end of the address space.
    AddressOverflow,
    /// The guest stopped for another reason than a breakpoint.
    UnexpectedStop(StopReason),
    /// The program counter could not be read.
    ReadPc,
    /// The input region could not be mapped.
    MapInput,
    /// The reply does not answer the request that was due.
    UnexpectedReply,
}

/// The guest addresses that initialisation works with.
#[derive(Clone, Copy, Debug, PartialEq, Eq, Structural)]
pub struct Addresses {
    /// Where harness-controlled behaviour begins.
    pub entry: GuestAddr,
    /// Where an execution is over.
    pub end: GuestAddr,
    /// The cleanup routine, or 0 where the build has none.
    pub abort: GuestAddr,
}

/// The initialised harness.
#[derive(Clone, Copy, Debug, PartialEq, Eq, Structural)]
pub struct Harness {
    /// Base of the guest's input region of [`MAX_INPUT_SIZE`] bytes.
    pub input_addr: GuestAddr,
    /// The auxiliary address resolved at initialisation.
    pub abort_addr: GuestAddr,
}

/// The request of initialisation that is due.
#[derive(Clone, Copy, Debug, PartialEq, Eq, Structural)]
pub enum InitStage {
    ArmEntry,
    ArmEnd,
    RunToEntry,
    ConfirmPc,
    DisarmEntry,
    MapInput,
}

/// Initialisation under way.
#[derive(Clone, Copy, Debug, PartialEq, Eq, Structural)]
pub struct InitState {
    pub addresses: Addresses,
    pub stage: InitStage,
}

/// Where a reply leaves initialisation.
#[derive(Clone, Copy, Debug, PartialEq, Eq, Structural)]
pub enum InitStep {
    /// Another request is due.
    Continue(InitState),
    /// The guest stands at its entry point and has its input region.
    Ready(Harness),
    /// Initialisation failed for good.
    Failed(HarnessError),
}

/// The request of a run that is due.
#[derive(Clone, Copy, Debug, PartialEq, Eq, Structural)]
pub enum RunState {
    Resuming,
    ConfirmPc,
}

/// Where a reply leaves a run.
#[derive(Clone, Copy, Debug, PartialEq, Eq, Structural)]
pub enum RunStep {
    /// Another request is due.
    Continue(RunState),
    /// The guest reached the end breakpoint: normal completion.
    Completed,
    /// The run cannot be accounted for.
    Failed(HarnessError),
}

/// What to write where before the guest is resumed at a function that takes
/// a buffer and its length.
#[derive(Debug)]
pub struct ResetPlan {
    /// The candidate, cut to the input region.
    pub write: GuestWrite,
    /// First argument of the function: the input region.
    pub arg0: GuestReg,
    /// Second argument of the function: how many bytes were written.
    pub arg1: GuestReg,
}

impl Arch {
    /// Offset of the entry address from the load address.
    pub open spec fn entry_offset(self) -> GuestAddr {
        match self {
            Arch::X86_64 => X86_64_ENTRY_OFFSET,
            Arch::Aarch64 => AARCH64_ENTRY_OFFSET,
        }
    }

    /// Offset of the end address from the load address.
    pub open spec fn end_offset(self) -> GuestAddr {
        match self {
            Arch::X86_64 => X86_64_END_OFFSET,
            Arch::Aarch64 => AARCH64_END_OFFSET,
        }
    }

    /// Whether the build has a cleanup routine that must be found in the
    /// symbol table.
    pub open spec fn has_cleanup_symbol(self) -> bool {
        self is Aarch64
    }

    /// Name of the cleanup routine to look up in the binary's symbol table,
    /// for the builds that have one.
    pub fn cleanup_symbol(self) -> (name: Option<&'static str>)
        ensures
            name is Some == self.has_cleanup_symbol(),
            name matches Some(s) ==> s@ == "TIFFCleanup"@,
    {
        match self {
            Arch::X86_64 => None,
            Arch::Aarch64 => Some("TIFFCleanup"),
        }
    }
}

impl Addresses {
    /// The addresses of a binary loaded at `load_addr` whose symbol table
    /// gave `cleanup` for the cleanup routine.
    pub open spec fn resolve_spec(arch: Arch, load_addr: GuestAddr, cleanup: Option<GuestAddr>)
        -> Result<Addresses, HarnessError> {
        if arch.has_cleanup_symbol() && cleanup is None {
            Err(HarnessError::SymbolNotFound)
        } else if load_addr + arch.entry_offset() > GuestAddr::MAX || load_addr
            + arch.end_offset() > GuestAddr::MAX {
            Err(HarnessError::AddressOverflow)
        } else {
            Ok(
                Addresses {
                    entry: (load_addr + arch.entry_offset()) as GuestAddr,
                    end: (load_addr + arch.end_offset()) as GuestAddr,
                    abort: if arch.has_cleanup_symbol() {
                        cleanup->0
                    } else {
                        0
                    },
                },
            )
        }
    }

    /// Computes the addresses of interest from the load address and the
    /// symbol lookup.
    pub fn resolve(arch: Arch, load_addr: GuestAddr, cleanup: Option<GuestAddr>) -> (r: Result<
        Addresses,
        HarnessError,
    >)
        ensures
            r == Addresses::resolve_spec(arch, load_addr, cleanup),
    {
        let (entry_offset, end_offset, abort): (GuestAddr, GuestAddr, GuestAddr) = match arch {
            Arch::X86_64 => (X86_64_ENTRY_OFFSET, X86_64_END_OFFSET, 0),
            Arch::Aarch64 => match cleanup {
                Some(addr) => (AARCH64_ENTRY_OFFSET, AARCH64_END_OFFSET, addr),
                None => {
                    return Err(HarnessError::SymbolNotFound);
                },
            },
        };
        match (load_addr.checked_add(entry_offset), load_addr.checked_add(end_offset)) {
            (Some(entry), Some(end)) => Ok(Addresses { entry, end, abort }),
            _ => Err(HarnessError::AddressOverflow),
        }
    }
}

impl InitState {
    /// Initialisation before its first request.
    pub open spec fn start(addresses: Addresses) -> InitState {
        InitState { addresses, stage: InitStage::ArmEntry }
    }

    /// The request that is due in this state.
    pub open spec fn pending(self) -> GuestRequest {
        match self.stage {
            InitStage::ArmEntry => GuestRequest::SetBreakpoint { addr: self.addresses.entry },
            InitStage::ArmEnd => GuestRequest::SetBreakpoint { addr: self.addresses.end },
            InitStage::RunToEntry => GuestRequest::Resume,
            InitStage::ConfirmPc => GuestRequest::ReadPc,
            InitStage::DisarmEntry => GuestRequest::RemoveBreakpoint { addr: self.addresses.entry },
            InitStage::MapInput => GuestRequest::MapReadWrite {
                hint: INPUT_REGION_HINT,
                size: MAX_INPUT_SIZE,
            },
        }
    }

    /// Where `reply`, given to the request that is due, leaves
    /// initialisation.
    pub open spec fn next(self, reply: GuestReply) -> InitStep {
        match (self.stage, reply) {
            (InitStage::ArmEntry, GuestReply::Done) => InitStep::Continue(
                InitState { stage: InitStage::ArmEnd, ..self },
            ),
            (InitStage::ArmEnd, GuestReply::Done) => InitStep::Continue(
                InitState { stage: InitStage::RunToEntry, ..self },
            ),
            (InitStage::RunToEntry, GuestReply::Stopped(StopReason::Breakpoint(_))) => {
                InitStep::Continue(InitState { stage: InitStage::ConfirmPc, ..self })
            },
            (InitStage::RunToEntry, GuestReply::Stopped(reason)) => InitStep::Failed(
                HarnessError::UnexpectedStop(reason),
            ),
            (InitStage::ConfirmPc, GuestReply::Pc(Some(_))) => InitStep::Continue(
                InitState { stage: InitStage::DisarmEntry, ..self },
            ),
            (InitStage::ConfirmPc, GuestReply::Pc(None)) => InitStep::Failed(HarnessError::ReadPc),
            (InitStage::DisarmEntry, GuestReply::Done) => InitStep::Continue(
                InitState { stage: InitStage::MapInput, ..self },
            ),
            (InitStage::MapInput, GuestReply::Mapped(Some(addr))) => InitStep::Ready(
                Harness { input_addr: addr, abort_addr: self.addresses.abort },
            ),
            (InitStage::MapInput, GuestReply::Mapped(None)) => InitStep::Failed(
                HarnessError::MapInput,
            ),
            _ => InitStep::Failed(HarnessError::UnexpectedReply),
        }
    }

    /// The request to carry out now.
    pub fn request(&self) -> (request: GuestRequest)
        ensures
            request == self.pending(),
    {
        match self.stage {
            InitStage::ArmEntry => GuestRequest::SetBreakpoint { addr: self.addresses.entry },
            InitStage::ArmEnd => GuestRequest::SetBreakpoint { addr: self.addresses.end },
            InitStage::RunToEntry => GuestRequest::Resume,
            InitStage::ConfirmPc => GuestRequest::ReadPc,
            InitStage::DisarmEntry => GuestRequest::RemoveBreakpoint { addr: self.addresses.entry },
            InitStage::MapInput => GuestRequest::MapReadWrite {
                hint: INPUT_REGION_HINT,
                size: MAX_INPUT_SIZE,
            },
        }
    }

    /// Takes the reply to the request that was due.
    pub fn advance(self, reply: GuestReply) -> (step: InitStep)
        ensures
            step == self.next(reply),
    {
        let addresses = self.addresses;
        match self.stage {
            InitStage::ArmEntry => match reply {
                GuestReply::Done => InitStep::Continue(
                    InitState { addresses, stage: InitStage::ArmEnd },
                ),
                _ => InitStep::Failed(HarnessError::UnexpectedReply),
            },
            InitStage::ArmEnd => match reply {
                GuestReply::Done => InitStep::Continue(
                    InitState { addresses, stage: InitStage::RunToEntry },
                ),
                _ => InitStep::Failed(HarnessError::UnexpectedReply),
            },
            InitStage::RunToEntry => match reply {
                GuestReply::Stopped(StopReason::Breakpoint(_)) => InitStep::Continue(
                    InitState { addresses, stage: InitStage::ConfirmPc },
                ),
                GuestReply::Stopped(reason) => InitStep::Failed(
                    HarnessError::UnexpectedStop(reason),
                ),
                _ => InitStep::Failed(HarnessError::UnexpectedReply),
            },
            InitStage::ConfirmPc => match reply {
                GuestReply::Pc(Some(_)) => InitStep::Continue(
                    InitState { addresses, stage: InitStage::DisarmEntry },
                ),
                GuestReply::Pc(None) => InitStep::Failed(HarnessError::ReadPc),
                _ => InitStep::Failed(HarnessError::UnexpectedReply),
            },
            InitStage::DisarmEntry => match reply {
                GuestReply::Done => InitStep::Continue(
                    InitState { addresses, stage: InitStage::MapInput },
                ),
                _ => InitStep::Failed(HarnessError::UnexpectedReply),
            },
            InitStage::MapInput => match reply {
                GuestReply::Mapped(Some(addr)) => InitStep::Ready(
                    Harness { input_addr: addr, abort_addr: addresses.abort },
                ),
                GuestReply::Mapped(None) => InitStep::Failed(HarnessError::MapInput),
                _ => InitStep::Failed(HarnessError::UnexpectedReply),
            },
        }
    }
}

impl RunState {
    /// The request that is due in this state.
    pub open spec fn pending(self) -> GuestRequest {
        match self {
            RunState::Resuming => GuestRequest::Resume,
            RunState::ConfirmPc => GuestRequest::ReadPc,
        }
    }

    /// Where `reply`, given to the request that is due, leaves the run.
    pub open spec fn next(self, reply: GuestReply) -> RunStep {
        match (self, reply) {
            (RunState::Resuming, GuestReply::Stopped(StopReason::Breakpoint(_))) => {
                RunStep::Continue(RunState::ConfirmPc)
            },
            (RunState::Resuming, GuestReply::Stopped(reason)) => RunStep::Failed(
                HarnessError::UnexpectedStop(reason),
            ),
            (RunState::ConfirmPc, GuestReply::Pc(Some(_))) => RunStep::Completed,
            (RunState::ConfirmPc, GuestReply::Pc(None)) => RunStep::Failed(HarnessError::ReadPc),
            _ => RunStep::Failed(HarnessError::UnexpectedReply),
        }
    }

    /// The request to carry out now.
    pub fn request(&self) -> (request: GuestRequest)
        ensures
            request == self.pending(),
    {
        match self {
            RunState::Resuming => GuestRequest::Resume,
            RunState::ConfirmPc => GuestRequest::ReadPc,
        }
    }

    /// Takes the reply to the request that was due.
    pub fn advance(self, reply: GuestReply) -> (step: RunStep)
        ensures
            step == self.next(reply),
    {
        match self {
            RunState::Resuming => match reply {
                GuestReply::Stopped(StopReason::Breakpoint(_)) => RunStep::Continue(
                    RunState::ConfirmPc,
                ),
                GuestReply::Stopped(reason) => RunStep::Failed(
                    HarnessError::UnexpectedStop(reason),
                ),
                _ => RunStep::Failed(HarnessError::UnexpectedReply),
            },
            RunState::ConfirmPc => match reply {
                GuestReply::Pc(Some(_)) => RunStep::Completed,
                GuestReply::Pc(None) => RunStep::Failed(HarnessError::ReadPc),
                _ => RunStep::Failed(HarnessError::UnexpectedReply),
            },
        }
    }
}

impl Harness {
    /// Leaves the guest's environment as it is.
    pub fn edit_env(env: &mut Vec<(String, String)>)
        ensures
            *final(env) == *old(env),
    {
    }

    /// Leaves the guest's arguments as they are.
    pub fn edit_args(args: &mut Vec<String>)
        ensures
            *final(args) == *old(args),
    {
    }

    /// Begins initialisation for a binary loaded at `load_addr`, whose
    /// symbol table gave `cleanup` for the routine that
    /// [`Arch::cleanup_symbol`] names. Nothing has been asked of the
    /// emulator yet.
    pub fn init(arch: Arch, load_addr: GuestAddr, cleanup: Option<GuestAddr>) -> (r: Result<
        InitState,
        HarnessError,
    >)
        ensures
            r == match Addresses::resolve_spec(arch, load_addr, cleanup) {
                Ok(addresses) => Ok::<InitState, HarnessError>(InitState::start(addresses)),
                Err(e) => Err(e),
            },
    {
        match Addresses::resolve(arch, load_addr, cleanup) {
            Ok(addresses) => Ok(InitState { addresses, stage: InitStage::ArmEntry }),
            Err(e) => Err(e),
        }
    }

    /// Does nothing: no work is needed after a fork.
    pub fn post_fork(&self) {
    }

    /// Begins one execution: the guest is to be resumed from where it
    /// stands.
    pub fn run(&self) -> (state: RunState)
        ensures
            state == RunState::Resuming,
    {
        RunState::Resuming
    }

    /// Plans the injection of `input` through the arguments of a function:
    /// the candidate, cut to [`MAX_INPUT_SIZE`] bytes, goes to the input
    /// region, whose address and the number of bytes written become the
    /// function's first two arguments.
    pub fn reset(&self, input: &[u8]) -> (plan: ResetPlan)
        ensures
            plan.write.addr == self.input_addr,
            plan.write.bytes@ == truncated(input@, MAX_INPUT_SIZE as nat),
            plan.arg0 == self.input_addr,
            plan.arg1 == plan.write.bytes@.len(),
    {
        let bytes: Vec<u8> = if input.len() > MAX_INPUT_SIZE {
            slice_to_vec(slice_subrange(input, 0, MAX_INPUT_SIZE))
        } else {
            slice_to_vec(input)
        };
        let len: GuestReg = bytes.len() as GuestReg;
        ResetPlan {
            write: GuestWrite { addr: self.input_addr, bytes },
            arg0: self.input_addr,
            arg1: len,
        }
    }
}

} // verus!
