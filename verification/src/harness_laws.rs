//! What holds of initialisation and of a run over whole exchanges with the
//! emulator.

use vstd::prelude::*;

use crate::guest::{GuestReply, GuestRequest, StopReason};
use crate::harness::{
    Addresses, Harness, HarnessError, InitStage, InitState, InitStep, RunState, RunStep,
    INPUT_REGION_HINT, MAX_INPUT_SIZE,
};

verus! {

/// The requests of a complete initialisation, in order.
pub open spec fn init_script(addresses: Addresses) -> Seq<GuestRequest> {
    seq![
        GuestRequest::SetBreakpoint { addr: addresses.entry },
        GuestRequest::SetBreakpoint { addr: addresses.end },
        GuestRequest::Resume,
        GuestRequest::ReadPc,
        GuestRequest::RemoveBreakpoint { addr: addresses.entry },
        GuestRequest::MapReadWrite { hint: INPUT_REGION_HINT, size: MAX_INPUT_SIZE },
    ]
}

/// Position of a stage's request in [`init_script`].
pub open spec fn stage_index(stage: InitStage) -> int {
    match stage {
        InitStage::ArmEntry => 0,
        InitStage::ArmEnd => 1,
        InitStage::RunToEntry => 2,
        InitStage::ConfirmPc => 3,
        InitStage::DisarmEntry => 4,
        InitStage::MapInput => 5,
    }
}

/// An exchange with the emulator: the requests made, and where the last
/// reply taken left things.
pub struct InitRun {
    pub requests: Seq<GuestRequest>,
    pub end: InitStep,
}

/// Initialisation driven from `state` with `replies` in order. The request
/// that is due is always made; replies that arrive after initialisation has
/// ended are not looked at.
pub open spec fn drive_init(state: InitState, replies: Seq<GuestReply>) -> InitRun
    decreases replies.len(),
{
    if replies.len() == 0 {
        InitRun { requests: seq![state.pending()], end: InitStep::Continue(state) }
    } else {
        match state.next(replies.first()) {
            InitStep::Continue(next) => {
                let rest = drive_init(next, replies.drop_first());
                InitRun { requests: seq![state.pending()] + rest.requests, end: rest.end }
            },
            end => InitRun { requests: seq![state.pending()], end },
        }
    }
}

/// Each step of initialisation makes the request at its place in the script
/// and, if it goes on, goes on to the next place with the same addresses.
pub proof fn law_init_steps_through_script(state: InitState, reply: GuestReply)
    ensures
        state.pending() == init_script(state.addresses)[stage_index(state.stage)],
        state.next(reply) matches InitStep::Continue(next) ==> next.addresses == state.addresses
            && stage_index(next.stage) == stage_index(state.stage) + 1,
{
}

/// Whatever the emulator replies, the requests made are a leading part of
/// the script, from the state's place on. So the guest is never resumed
/// before both breakpoints are armed, it is resumed at most once, and the
/// entry breakpoint is disarmed right after the stop at it was confirmed
/// and before the input region is mapped.
pub proof fn law_init_requests_follow_script(state: InitState, replies: Seq<GuestReply>)
    ensures
        ({
            let run = drive_init(state, replies);
            let from = stage_index(state.stage);
            &&& 1 <= run.requests.len() <= 6 - from
            &&& run.requests == init_script(state.addresses).subrange(
                from,
                from + run.requests.len(),
            )
        }),
    decreases replies.len(),
{
    let script = init_script(state.addresses);
    let from = stage_index(state.stage);
    assert(seq![state.pending()] == script.subrange(from, from + 1));
    if replies.len() > 0 {
        match state.next(replies.first()) {
            InitStep::Continue(next) => {
                let rest = drive_init(next, replies.drop_first());
                law_init_requests_follow_script(next, replies.drop_first());
                assert(script.subrange(from, from + 1) + script.subrange(
                    from + 1,
                    from + 1 + rest.requests.len(),
                ) == script.subrange(from, from + 1 + rest.requests.len()));
            },
            _ => {},
        }
    }
}

/// Initialisation succeeds exactly on the six replies of a clean start: both
/// breakpoints armed, a stop at a breakpoint, a program counter, the entry
/// breakpoint disarmed, a mapping. The harness then holds the mapping's base
/// and the auxiliary address; later replies change nothing.
pub proof fn law_init_ready_iff_clean_start(
    addresses: Addresses,
    replies: Seq<GuestReply>,
    harness: Harness,
)
    ensures
        drive_init(InitState::start(addresses), replies).end == InitStep::Ready(harness) <==> {
            &&& replies.len() >= 6
            &&& replies[0] == GuestReply::Done
            &&& replies[1] == GuestReply::Done
            &&& replies[2] matches GuestReply::Stopped(StopReason::Breakpoint(_))
            &&& replies[3] matches GuestReply::Pc(Some(_))
            &&& replies[4] == GuestReply::Done
            &&& replies[5] == GuestReply::Mapped(Some(harness.input_addr))
            &&& harness.abort_addr == addresses.abort
        },
{
    reveal_with_fuel(drive_init, 8);
    let s0 = InitState::start(addresses);
    let r1 = replies.drop_first();
    let r2 = r1.drop_first();
    let r3 = r2.drop_first();
    let r4 = r3.drop_first();
    let r5 = r4.drop_first();
    if replies.len() >= 1 {
        assert(r1.len() == replies.len() - 1);
        if replies.len() >= 2 {
            assert(r1.first() == replies[1]);
            if replies.len() >= 3 {
                assert(r2.first() == replies[2]);
                if replies.len() >= 4 {
                    assert(r3.first() == replies[3]);
                    if replies.len() >= 5 {
                        assert(r4.first() == replies[4]);
                        if replies.len() >= 6 {
                            assert(r5.first() == replies[5]);
                        }
                    }
                }
            }
        }
    }
}

/// During initialisation any stop of the guest but a breakpoint is fatal,
/// and so is a failure to read the program counter or to map the input
/// region.
pub proof fn law_init_failures_are_fatal(state: InitState, reply: GuestReply)
    ensures
        state.stage == InitStage::RunToEntry ==> match reply {
            GuestReply::Stopped(StopReason::Breakpoint(_)) => state.next(reply) is Continue,
            GuestReply::Stopped(reason) => state.next(reply) == InitStep::Failed(
                HarnessError::UnexpectedStop(reason),
            ),
            _ => state.next(reply) == InitStep::Failed(HarnessError::UnexpectedReply),
        },
        state.stage == InitStage::ConfirmPc && reply == GuestReply::Pc(None) ==> state.next(reply)
            == InitStep::Failed(HarnessError::ReadPc),
        state.stage == InitStage::MapInput && reply == GuestReply::Mapped(None) ==> state.next(
            reply,
        ) == InitStep::Failed(HarnessError::MapInput),
{
}

/// A run completes exactly when the guest stops at a breakpoint and the
/// program counter can then be read; it asks for nothing but to resume and
/// to read the program counter.
pub proof fn law_run_completes_iff_breakpoint(harness: Harness, stop: GuestReply, pc: GuestReply)
    ensures
        RunState::Resuming.pending() == GuestRequest::Resume,
        RunState::ConfirmPc.pending() == GuestRequest::ReadPc,
        ({
            let completed = RunState::Resuming.next(stop) == RunStep::Continue(RunState::ConfirmPc)
                && RunState::ConfirmPc.next(pc) == RunStep::Completed;
            completed <==> (stop matches GuestReply::Stopped(StopReason::Breakpoint(_)))
                && (pc matches GuestReply::Pc(Some(_)))
        }),
{
}

} // verus!
