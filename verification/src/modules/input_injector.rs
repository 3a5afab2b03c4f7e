//! Feeds the candidate to the guest by answering its system calls.
//!
//! Before an execution the candidate is staged: cut to the capacity of the
//! guest's input region, kept as the bytes that `read` calls will drain from
//! the front, and handed out once more to be mirrored into that region for
//! guests that map their input. During the execution each intercepted call is
//! answered from this state alone.

use libafl_bolts::ownedref::OwnedSlice;
use vstd::prelude::*;
use vstd::slice::slice_to_vec;

use crate::guest::{truncated, GuestAddr, GuestWrite};
use crate::harness::MAX_INPUT_SIZE;
use crate::modules::exec_meta::ExecMeta;

verus! {

/// Protection bits of the `mmap` call by which a guest maps its input.
pub const INPUT_MAPPING_PROT: GuestAddr = 1;

/// Flag bits of the `mmap` call by which a guest maps its input.
pub const INPUT_MAPPING_FLAGS: GuestAddr = 1;

/// The numbers under which the guest's kernel ABI knows the five calls that
/// are intercepted.
#[derive(Clone, Copy, Debug, PartialEq, Eq, Structural)]
pub struct SyscallNumbers {
    pub read: i64,
    pub mmap: i64,
    pub munmap: i64,
    pub exit: i64,
    pub exit_group: i64,
}

/// Which of the intercepted calls a system call is, if any.
#[derive(Clone, Copy, Debug, PartialEq, Eq, Structural)]
pub enum SyscallKind {
    Read,
    Mmap,
    Munmap,
    Exit,
    ExitGroup,
    /// Not intercepted.
    Other,
}

/// One system call as the emulator's hook sees it: the number and the eight
/// argument registers.
#[derive(Clone, Copy, Debug, PartialEq, Eq, Structural)]
pub struct Syscall {
    pub num: i32,
    pub a0: GuestAddr,
    pub a1: GuestAddr,
    pub a2: GuestAddr,
    pub a3: GuestAddr,
    pub a4: GuestAddr,
    pub a5: GuestAddr,
    pub a6: GuestAddr,
    pub a7: GuestAddr,
}

/// What the hook does with a system call.
#[derive(Debug)]
pub enum SyscallAction {
    /// Let the call reach the kernel unchanged.
    PassThrough,
    /// Do not run the call; the guest sees `retval` as its result.
    Answer { retval: GuestAddr },
    /// Do not run the call; copy `data` into guest memory at `dest` and let
    /// the guest see the number of bytes copied as its result.
    Deliver { dest: GuestAddr, data: Vec<u8> },
    /// End the current execution here. Control does not go back to the
    /// guest.
    EndExecution,
}

/// Mathematical value of a [`SyscallAction`].
pub enum ActionView {
    PassThrough,
    Answer { retval: GuestAddr },
    Deliver { dest: GuestAddr, data: Seq<u8> },
    EndExecution,
}

/// Mathematical value of an [`InputInjectorModule`].
pub struct InjectorView {
    /// The part of the candidate that no `read` has consumed yet.
    pub staged: Seq<u8>,
    /// Base of the guest's input region.
    pub input_addr: GuestAddr,
    /// The most that is staged of one candidate.
    pub max_size: nat,
}

/// Everything one intercepted call leaves behind.
pub struct Handled {
    pub injector: InjectorView,
    pub meta: ExecMeta,
    pub action: ActionView,
}

/// How many bytes a `read` of `requested` bytes gets when `available` are
/// left.
pub open spec fn read_count(available: nat, requested: GuestAddr) -> nat {
    if requested <= available {
        requested as nat
    } else {
        available
    }
}

/// Whether an `mmap` with these protection and flag arguments is the guest
/// mapping its input.
pub open spec fn is_input_mapping(prot: GuestAddr, flags: GuestAddr) -> bool {
    prot == INPUT_MAPPING_PROT && flags == INPUT_MAPPING_FLAGS
}

impl SyscallNumbers {
    /// No two of the five calls share a number.
    pub open spec fn wf(self) -> bool {
        &&& self.read != self.mmap
        &&& self.read != self.munmap
        &&& self.read != self.exit
        &&& self.read != self.exit_group
        &&& self.mmap != self.munmap
        &&& self.mmap != self.exit
        &&& self.mmap != self.exit_group
        &&& self.munmap != self.exit
        &&& self.munmap != self.exit_group
        &&& self.exit != self.exit_group
    }

    /// The call that `num` stands for. Where numbers coincide the first of
    /// `read`, `mmap`, `munmap`, `exit`, `exit_group` wins.
    pub open spec fn kind_of(self, num: i32) -> SyscallKind {
        if num == self.read {
            SyscallKind::Read
        } else if num == self.mmap {
            SyscallKind::Mmap
        } else if num == self.munmap {
            SyscallKind::Munmap
        } else if num == self.exit {
            SyscallKind::Exit
        } else if num == self.exit_group {
            SyscallKind::ExitGroup
        } else {
            SyscallKind::Other
        }
    }

    /// The table, if the five numbers are pairwise distinct.
    pub fn new(read: i64, mmap: i64, munmap: i64, exit: i64, exit_group: i64) -> (table: Option<
        SyscallNumbers,
    >)
        ensures
            table == if (SyscallNumbers { read, mmap, munmap, exit, exit_group }).wf() {
                Some(SyscallNumbers { read, mmap, munmap, exit, exit_group })
            } else {
                None
            },
    {
        let distinct = read != mmap && read != munmap && read != exit && read != exit_group
            && mmap != munmap && mmap != exit && mmap != exit_group && munmap != exit && munmap
            != exit_group && exit != exit_group;
        if distinct {
            Some(SyscallNumbers { read, mmap, munmap, exit, exit_group })
        } else {
            None
        }
    }

    /// Tells which intercepted call `num` is.
    pub fn classify(&self, num: i32) -> (kind: SyscallKind)
        ensures
            kind == self.kind_of(num),
    {
        let wide: i64 = num as i64;
        if wide == self.read {
            SyscallKind::Read
        } else if wide == self.mmap {
            SyscallKind::Mmap
        } else if wide == self.munmap {
            SyscallKind::Munmap
        } else if wide == self.exit {
            SyscallKind::Exit
        } else if wide == self.exit_group {
            SyscallKind::ExitGroup
        } else {
            SyscallKind::Other
        }
    }
}

impl View for SyscallAction {
    type V = ActionView;

    open spec fn view(&self) -> ActionView {
        match *self {
            SyscallAction::PassThrough => ActionView::PassThrough,
            SyscallAction::Answer { retval } => ActionView::Answer { retval },
            SyscallAction::Deliver { dest, data } => ActionView::Deliver { dest, data: data@ },
            SyscallAction::EndExecution => ActionView::EndExecution,
        }
    }
}

impl ActionView {
    /// What the guest sees as the result of the call, where the hook decides
    /// it: nothing for a call that runs unchanged or never returns.
    pub open spec fn retval(self) -> Option<GuestAddr> {
        match self {
            ActionView::PassThrough => None,
            ActionView::Answer { retval } => Some(retval),
            ActionView::Deliver { dest, data } => Some(data.len() as GuestAddr),
            ActionView::EndExecution => None,
        }
    }

    /// Whether the real system call is kept from running.
    pub open spec fn intercepted(self) -> bool {
        !(self is PassThrough)
    }
}

impl SyscallAction {
    /// The result that the guest is to see, if the hook decides it.
    pub fn retval(&self) -> (r: Option<GuestAddr>)
        ensures
            r == self@.retval(),
    {
        match self {
            SyscallAction::PassThrough => None,
            SyscallAction::Answer { retval } => Some(*retval),
            SyscallAction::Deliver { dest: _, data } => Some(data.len() as GuestAddr),
            SyscallAction::EndExecution => None,
        }
    }
}

impl InjectorView {
    /// Staging never holds more than the cap.
    pub open spec fn wf(self) -> bool {
        self.staged.len() <= self.max_size
    }

    /// The state after `candidate` was staged: whatever was left of the
    /// previous candidate is gone.
    pub open spec fn stage(self, candidate: Seq<u8>) -> InjectorView {
        InjectorView { staged: truncated(candidate, self.max_size), ..self }
    }

    /// The bytes that a `read` of `requested` bytes hands to the guest.
    pub open spec fn read_data(self, requested: GuestAddr) -> Seq<u8> {
        self.staged.take(read_count(self.staged.len(), requested) as int)
    }

    /// The state after a `read` of `requested` bytes.
    pub open spec fn after_read(self, requested: GuestAddr) -> InjectorView {
        InjectorView {
            staged: self.staged.skip(read_count(self.staged.len(), requested) as int),
            ..self
        }
    }

    /// The interception protocol: what one system call does to the injector
    /// and to the execution's flag record, and how the hook answers it.
    pub open spec fn handle(self, meta: ExecMeta, numbers: SyscallNumbers, call: Syscall) -> Handled {
        match numbers.kind_of(call.num) {
            SyscallKind::Read => Handled {
                injector: self.after_read(call.a2),
                meta,
                action: ActionView::Deliver { dest: call.a1, data: self.read_data(call.a2) },
            },
            SyscallKind::Mmap => Handled {
                injector: self,
                meta,
                action: if is_input_mapping(call.a2, call.a3) {
                    ActionView::Answer { retval: self.input_addr }
                } else {
                    ActionView::PassThrough
                },
            },
            SyscallKind::Munmap => Handled {
                injector: self,
                meta,
                action: if call.a0 == self.input_addr {
                    ActionView::Answer { retval: 0 }
                } else {
                    ActionView::PassThrough
                },
            },
            SyscallKind::Exit | SyscallKind::ExitGroup => Handled {
                injector: self,
                meta: ExecMeta { ignore: true },
                action: ActionView::EndExecution,
            },
            SyscallKind::Other => Handled { injector: self, meta, action: ActionView::PassThrough },
        }
    }
}

/// Stateful interception module: owns the bytes of the current candidate
/// that the guest has not read yet.
#[derive(Debug)]
pub struct InputInjectorModule {
    input: Vec<u8>,
    input_addr: GuestAddr,
    max_size: usize,
}

impl View for InputInjectorModule {
    type V = InjectorView;

    closed spec fn view(&self) -> InjectorView {
        InjectorView {
            staged: self.input@,
            input_addr: self.input_addr,
            max_size: self.max_size as nat,
        }
    }
}

/// Cuts `bytes` to `new_len` through `OwnedSlice::truncate` of `libafl_bolts`,
/// on a borrowed slice as the engine hands one out. Trusted: where `new_len`
/// does not exceed the length, the slice is left with its first `new_len`
/// items; where it does, the slice is left as it was. The old length that
/// the call reports is dropped.
#[verifier::external_body]
fn truncated_target_bytes(bytes: &[u8], new_len: usize) -> (out: Vec<u8>)
    ensures
        new_len <= bytes@.len() ==> out@ == bytes@.take(new_len as int),
        new_len > bytes@.len() ==> out@ == bytes@,
{
    let mut target = OwnedSlice::from(bytes);
    let _ = target.truncate(new_len);
    target.to_vec()
}

/// Whether an `mmap` with these protection and flag arguments is the guest
/// mapping its input.
pub fn input_mapping(prot: GuestAddr, flags: GuestAddr) -> (recognized: bool)
    ensures
        recognized == is_input_mapping(prot, flags),
{
    prot == INPUT_MAPPING_PROT && flags == INPUT_MAPPING_FLAGS
}

impl InputInjectorModule {
    #[verifier::type_invariant]
    spec fn inv(self) -> bool {
        self.input@.len() <= self.max_size
    }

    /// An injector with nothing staged, a cap of [`MAX_INPUT_SIZE`] and no
    /// input region yet.
    pub fn new() -> (module: InputInjectorModule)
        ensures
            module@ == (InjectorView {
                staged: Seq::empty(),
                input_addr: 0,
                max_size: MAX_INPUT_SIZE as nat,
            }),
    {
        InputInjectorModule { input: Vec::new(), input_addr: 0, max_size: MAX_INPUT_SIZE }
    }

    /// Records the base of the guest's input region, once the harness has
    /// allocated it.
    pub fn set_input_addr(&mut self, addr: GuestAddr)
        ensures
            final(self)@ == (InjectorView { input_addr: addr, ..old(self)@ }),
    {
        proof {
            use_type_invariant(&*self);
        }
        self.input_addr = addr;
    }

    /// Base of the guest's input region.
    pub fn input_addr(&self) -> (addr: GuestAddr)
        ensures
            addr == self@.input_addr,
    {
        self.input_addr
    }

    /// The most that is staged of one candidate.
    pub fn max_size(&self) -> (max_size: usize)
        ensures
            max_size == self@.max_size,
    {
        self.max_size
    }

    /// The staged bytes that no `read` has consumed yet.
    pub fn staged(&self) -> (staged: &Vec<u8>)
        ensures
            staged@ == self@.staged,
            staged@.len() <= self@.max_size,
    {
        proof {
            use_type_invariant(self);
        }
        &self.input
    }

    /// Stages `input` for the execution that is about to start, and returns
    /// the same bytes to be mirrored into the guest's input region.
    pub fn pre_exec(&mut self, input: &[u8]) -> (write: GuestWrite)
        ensures
            final(self)@ == old(self)@.stage(input@),
            final(self)@.wf(),
            write.addr == old(self)@.input_addr,
            write.bytes@ == truncated(input@, old(self)@.max_size),
    {
        let staged: Vec<u8> = if input.len() > self.max_size {
            truncated_target_bytes(input, self.max_size)
        } else {
            slice_to_vec(input)
        };
        let bytes: Vec<u8> = staged.clone();
        self.input = staged;
        GuestWrite { addr: self.input_addr, bytes }
    }

    /// Answers a `read` of `requested` bytes: takes that many bytes, or all
    /// that are left if there are fewer, off the front of the staged input.
    pub fn read(&mut self, requested: GuestAddr) -> (data: Vec<u8>)
        ensures
            data@ == old(self)@.read_data(requested),
            final(self)@ == old(self)@.after_read(requested),
    {
        proof {
            use_type_invariant(&*self);
        }
        let available: usize = self.input.len();
        let count: usize = if requested <= available as u64 {
            requested as usize
        } else {
            available
        };
        let mut data: Vec<u8> = Vec::new();
        std::mem::swap(&mut data, &mut self.input);
        let rest: Vec<u8> = data.split_off(count);
        self.input = rest;
        data
    }
}

/// The pre-syscall hook: answers `call` from the injector's state.
///
/// `read` drains the staged input, `mmap` of the input pattern and `munmap`
/// of the input region are answered without running, `exit` and `exit_group`
/// set the ignore flag and end the execution, and every other call runs
/// unchanged.
pub fn syscall_hooks(
    injector: &mut InputInjectorModule,
    exec_meta: &mut ExecMeta,
    numbers: &SyscallNumbers,
    call: Syscall,
) -> (action: SyscallAction)
    ensures
        (Handled { injector: final(injector)@, meta: *final(exec_meta), action: action@ })
            == old(injector)@.handle(*old(exec_meta), *numbers, call),
{
    match numbers.classify(call.num) {
        SyscallKind::Read => {
            let data = injector.read(call.a2);
            SyscallAction::Deliver { dest: call.a1, data }
        },
        SyscallKind::Mmap => {
            if input_mapping(call.a2, call.a3) {
                SyscallAction::Answer { retval: injector.input_addr }
            } else {
                SyscallAction::PassThrough
            }
        },
        SyscallKind::Munmap => {
            if call.a0 == injector.input_addr {
                SyscallAction::Answer { retval: 0 }
            } else {
                SyscallAction::PassThrough
            }
        },
        SyscallKind::Exit | SyscallKind::ExitGroup => {
            exec_meta.mark_engineered_exit();
            SyscallAction::EndExecution
        },
        SyscallKind::Other => SyscallAction::PassThrough,
    }
}

} // verus!
