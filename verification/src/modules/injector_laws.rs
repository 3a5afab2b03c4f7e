//! What holds of the interception protocol over whole executions.

use vstd::prelude::*;

use crate::modules::exec_meta::ExecMeta;
use crate::guest::truncated;
use crate::modules::input_injector::{
    is_input_mapping, read_count, ActionView, InjectorView, Syscall, SyscallKind, SyscallNumbers,
};

verus! {

/// Where a run of system calls leaves the injector and the flag record, and
/// all bytes that it handed to the guest, in the order handed.
pub struct Trace {
    pub injector: InjectorView,
    pub meta: ExecMeta,
    pub delivered: Seq<u8>,
}

/// The bytes that one action hands to the guest.
pub open spec fn delivered_by(action: ActionView) -> Seq<u8> {
    match action {
        ActionView::Deliver { dest, data } => data,
        _ => Seq::empty(),
    }
}

/// The hook answering `calls` one after another.
pub open spec fn handle_all(
    injector: InjectorView,
    meta: ExecMeta,
    numbers: SyscallNumbers,
    calls: Seq<Syscall>,
) -> Trace
    decreases calls.len(),
{
    if calls.len() == 0 {
        Trace { injector, meta, delivered: Seq::empty() }
    } else {
        let first = injector.handle(meta, numbers, calls.first());
        let rest = handle_all(first.injector, first.meta, numbers, calls.drop_first());
        Trace { delivered: delivered_by(first.action) + rest.delivered, ..rest }
    }
}

/// A candidate that fits is read back in order: a first `read` of no more
/// than its length gets exactly that many of its leading bytes, and the next
/// `read` continues where the first one stopped, getting all that is left if
/// it asks for at least that much.
pub proof fn law_reads_return_candidate_in_order(
    injector: InjectorView,
    meta: ExecMeta,
    numbers: SyscallNumbers,
    candidate: Seq<u8>,
    first: Syscall,
    second: Syscall,
)
    requires
        candidate.len() <= injector.max_size,
        numbers.kind_of(first.num) == SyscallKind::Read,
        numbers.kind_of(second.num) == SyscallKind::Read,
        first.a2 <= candidate.len(),
    ensures
        ({
            let one = injector.stage(candidate).handle(meta, numbers, first);
            let two = one.injector.handle(one.meta, numbers, second);
            let left = (candidate.len() - first.a2) as nat;
            &&& one.action == (ActionView::Deliver {
                dest: first.a1,
                data: candidate.take(first.a2 as int),
            })
            &&& one.action.retval() == Some(first.a2)
            &&& two.action == (ActionView::Deliver {
                dest: second.a1,
                data: candidate.subrange(
                    first.a2 as int,
                    first.a2 + read_count(left, second.a2),
                ),
            })
            &&& second.a2 >= left ==> two.action == (ActionView::Deliver {
                dest: second.a1,
                data: candidate.skip(first.a2 as int),
            }) && two.action.retval() == Some(left as u64) && two.injector.staged.len() == 0
        }),
{
    let staged = injector.stage(candidate);
    let one = staged.handle(meta, numbers, first);
    let two = one.injector.handle(one.meta, numbers, second);
    let left = (candidate.len() - first.a2) as nat;
    assert(staged.staged == candidate);
    assert(one.injector.staged == candidate.skip(first.a2 as int));
    assert(candidate.skip(first.a2 as int).take(read_count(left, second.a2) as int)
        == candidate.subrange(first.a2 as int, first.a2 + read_count(left, second.a2)));
    if second.a2 >= left {
        assert(candidate.subrange(first.a2 as int, first.a2 + left) == candidate.skip(
            first.a2 as int,
        ));
    }
}

/// Staging starts every execution afresh: what is staged depends on the
/// candidate and the cap alone, not on what an earlier execution left, and
/// it never exceeds the cap.
pub proof fn law_staging_forgets_the_past(
    earlier: InjectorView,
    later: InjectorView,
    candidate: Seq<u8>,
)
    requires
        earlier.max_size == later.max_size,
        earlier.input_addr == later.input_addr,
    ensures
        earlier.stage(candidate) == later.stage(candidate),
        earlier.stage(candidate).wf(),
        candidate.len() <= earlier.max_size ==> earlier.stage(candidate).staged == candidate,
{
}

/// Of a candidate longer than the cap exactly the first `max_size` bytes are
/// staged.
pub proof fn law_oversized_candidate_is_cut(injector: InjectorView, candidate: Seq<u8>)
    requires
        candidate.len() > injector.max_size,
    ensures
        injector.stage(candidate).staged == candidate.take(injector.max_size as int),
        injector.stage(candidate).staged.len() == injector.max_size,
        injector.stage(candidate).wf(),
{
}

/// Nothing but the staged bytes ever reaches the guest: over any run of
/// system calls, the bytes delivered followed by the bytes still staged are
/// the bytes that were staged at the start, and neither the input region nor
/// the cap moves.
pub proof fn law_delivery_conserves_staged(
    injector: InjectorView,
    meta: ExecMeta,
    numbers: SyscallNumbers,
    calls: Seq<Syscall>,
)
    ensures
        ({
            let end = handle_all(injector, meta, numbers, calls);
            &&& end.delivered + end.injector.staged == injector.staged
            &&& end.injector.input_addr == injector.input_addr
            &&& end.injector.max_size == injector.max_size
        }),
    decreases calls.len(),
{
    if calls.len() > 0 {
        let first = injector.handle(meta, numbers, calls.first());
        let rest = handle_all(first.injector, first.meta, numbers, calls.drop_first());
        law_delivery_conserves_staged(first.injector, first.meta, numbers, calls.drop_first());
        assert(delivered_by(first.action) + first.injector.staged == injector.staged);
        assert((delivered_by(first.action) + rest.delivered) + rest.injector.staged
            == delivered_by(first.action) + (rest.delivered + rest.injector.staged));
    } else {
        assert(Seq::<u8>::empty() + injector.staged == injector.staged);
    }
}

/// The bytes of a candidate beyond the cap are out of the guest's reach:
/// whatever system calls follow the staging, what they deliver is a leading
/// part of the candidate's first `max_size` bytes.
pub proof fn law_reads_stay_within_cap(
    injector: InjectorView,
    meta: ExecMeta,
    numbers: SyscallNumbers,
    candidate: Seq<u8>,
    calls: Seq<Syscall>,
)
    ensures
        ({
            let end = handle_all(injector.stage(candidate), meta, numbers, calls);
            &&& end.delivered.len() <= injector.max_size
            &&& end.delivered.len() <= candidate.len()
            &&& end.delivered == candidate.take(end.delivered.len() as int)
        }),
{
    let staged = injector.stage(candidate);
    let end = handle_all(staged, meta, numbers, calls);
    law_delivery_conserves_staged(staged, meta, numbers, calls);
    assert(staged.staged == truncated(candidate, injector.max_size));
    assert(end.delivered == (end.delivered + end.injector.staged).take(
        end.delivered.len() as int,
    ));
    assert(end.delivered == candidate.take(end.delivered.len() as int));
}

/// Once the staged input is drained it stays drained: after any further
/// system calls, a `read` of any length delivers no bytes and gives the guest
/// the result 0.
pub proof fn law_drained_reads_return_zero(
    injector: InjectorView,
    meta: ExecMeta,
    numbers: SyscallNumbers,
    calls: Seq<Syscall>,
    read: Syscall,
)
    requires
        injector.staged.len() == 0,
        numbers.kind_of(read.num) == SyscallKind::Read,
    ensures
        ({
            let end = handle_all(injector, meta, numbers, calls);
            let last = end.injector.handle(end.meta, numbers, read);
            &&& end.delivered.len() == 0
            &&& end.injector.staged.len() == 0
            &&& last.action == (ActionView::Deliver { dest: read.a1, data: Seq::empty() })
            &&& last.action.retval() == Some(0u64)
            &&& last.injector.staged.len() == 0
        }),
{
    let end = handle_all(injector, meta, numbers, calls);
    law_delivery_conserves_staged(injector, meta, numbers, calls);
    assert((end.delivered + end.injector.staged).len() == 0);
    let last = end.injector.handle(end.meta, numbers, read);
    assert(end.injector.read_data(read.a2) == Seq::<u8>::empty());
}

/// Whatever system calls came before, an `mmap` of the input pattern is
/// answered with the input region's address as it was set, and a `munmap` of
/// that address is answered with 0; neither runs, and neither touches the
/// staged input.
pub proof fn law_input_region_answers_are_fixed(
    injector: InjectorView,
    meta: ExecMeta,
    numbers: SyscallNumbers,
    calls: Seq<Syscall>,
    call: Syscall,
)
    ensures
        ({
            let end = handle_all(injector, meta, numbers, calls);
            let last = end.injector.handle(end.meta, numbers, call);
            &&& numbers.kind_of(call.num) == SyscallKind::Mmap && is_input_mapping(call.a2, call.a3)
                ==> last.action == (ActionView::Answer { retval: injector.input_addr })
                && last.action.intercepted() && last.injector == end.injector
            &&& numbers.kind_of(call.num) == SyscallKind::Munmap && call.a0 == injector.input_addr
                ==> last.action == (ActionView::Answer { retval: 0 })
                && last.action.intercepted() && last.injector == end.injector
        }),
{
    law_delivery_conserves_staged(injector, meta, numbers, calls);
}

/// An `exit` or `exit_group`, whatever its arguments, sets the ignore flag
/// and ends the execution without an answer to the guest.
pub proof fn law_exit_ends_execution(
    injector: InjectorView,
    meta: ExecMeta,
    numbers: SyscallNumbers,
    call: Syscall,
)
    requires
        numbers.wf(),
        call.num == numbers.exit || call.num == numbers.exit_group,
    ensures
        ({
            let end = injector.handle(meta, numbers, call);
            &&& end.action == ActionView::EndExecution
            &&& end.action.retval() is None
            &&& end.action.intercepted()
            &&& end.meta.ignore
            &&& end.injector == injector
        }),
{
}

/// No system call clears the ignore flag: once set, it is still set when the
/// execution is over.
pub proof fn law_ignore_flag_is_sticky(
    injector: InjectorView,
    meta: ExecMeta,
    numbers: SyscallNumbers,
    calls: Seq<Syscall>,
)
    requires
        meta.ignore,
    ensures
        handle_all(injector, meta, numbers, calls).meta.ignore,
    decreases calls.len(),
{
    if calls.len() > 0 {
        let first = injector.handle(meta, numbers, calls.first());
        law_ignore_flag_is_sticky(first.injector, first.meta, numbers, calls.drop_first());
    }
}

} // verus!
