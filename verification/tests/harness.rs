use guest_harness::guest::{GuestReply, GuestRequest, StopReason};
use guest_harness::harness::{
    Addresses, Arch, Harness, HarnessError, InitStage, InitState, InitStep, RunState, RunStep,
};

fn clean_replies(input_addr: u64) -> Vec<GuestReply> {
    vec![
        GuestReply::Done,
        GuestReply::Done,
        GuestReply::Stopped(StopReason::Breakpoint(0x4000_1384)),
        GuestReply::Pc(Some(0x4000_1384)),
        GuestReply::Done,
        GuestReply::Mapped(Some(input_addr)),
    ]
}

fn drive(mut state: InitState, replies: &[GuestReply]) -> (Vec<GuestRequest>, InitStep) {
    let mut requests = vec![state.request()];
    for reply in replies {
        match state.advance(*reply) {
            InitStep::Continue(next) => {
                state = next;
                requests.push(state.request());
            }
            end => return (requests, end),
        }
    }
    (requests, InitStep::Continue(state))
}

#[test]
fn x86_64_addresses_are_offsets_from_the_load_address() {
    assert_eq!(
        Addresses::resolve(Arch::X86_64, 0x4000_0000, None),
        Ok(Addresses { entry: 0x4000_1384, end: 0x4000_14C0, abort: 0 })
    );
    assert_eq!(
        Addresses::resolve(Arch::X86_64, 0, Some(0x77)),
        Ok(Addresses { entry: 0x1384, end: 0x14C0, abort: 0 })
    );
}

#[test]
fn aarch64_addresses_need_the_cleanup_symbol() {
    assert_eq!(
        Addresses::resolve(Arch::Aarch64, 0x55_0000_0000, Some(0x55_0000_9abc)),
        Ok(Addresses { entry: 0x55_0000_3634, end: 0x55_0000_3738, abort: 0x55_0000_9abc })
    );
    assert_eq!(
        Addresses::resolve(Arch::Aarch64, 0x55_0000_0000, None),
        Err(HarnessError::SymbolNotFound)
    );
    assert_eq!(Harness::init(Arch::Aarch64, 0, None), Err(HarnessError::SymbolNotFound));
}

#[test]
fn addresses_beyond_the_address_space_are_refused() {
    assert_eq!(
        Addresses::resolve(Arch::X86_64, u64::MAX, None),
        Err(HarnessError::AddressOverflow)
    );
    assert_eq!(
        Addresses::resolve(Arch::X86_64, u64::MAX - 0x14C0, None),
        Ok(Addresses { entry: u64::MAX - 0x14C0 + 0x1384, end: u64::MAX, abort: 0 })
    );
    assert_eq!(
        Addresses::resolve(Arch::X86_64, u64::MAX - 0x14BF, None),
        Err(HarnessError::AddressOverflow)
    );
    assert_eq!(
        Addresses::resolve(Arch::Aarch64, u64::MAX - 0x3737, Some(1)),
        Err(HarnessError::AddressOverflow)
    );
    assert_eq!(
        Addresses::resolve(Arch::Aarch64, u64::MAX - 0x3737, None),
        Err(HarnessError::SymbolNotFound)
    );
}

#[test]
fn cleanup_symbol_is_named_for_aarch64_only() {
    assert_eq!(Arch::Aarch64.cleanup_symbol(), Some("TIFFCleanup"));
    assert_eq!(Arch::X86_64.cleanup_symbol(), None);
}

#[test]
fn init_starts_by_arming_the_entry_breakpoint() {
    let state = Harness::init(Arch::X86_64, 0x4000_0000, None).expect("addresses resolve");
    assert_eq!(state.stage, InitStage::ArmEntry);
    assert_eq!(state.addresses, Addresses { entry: 0x4000_1384, end: 0x4000_14C0, abort: 0 });
    assert_eq!(state.request(), GuestRequest::SetBreakpoint { addr: 0x4000_1384 });
}

#[test]
fn clean_initialisation_yields_the_harness() {
    let state = Harness::init(Arch::Aarch64, 0x10_0000, Some(0x10_beef)).expect("resolves");
    let (requests, end) = drive(state, &clean_replies(0x7fff_0000));
    assert_eq!(
        requests,
        vec![
            GuestRequest::SetBreakpoint { addr: 0x10_3634 },
            GuestRequest::SetBreakpoint { addr: 0x10_3738 },
            GuestRequest::Resume,
            GuestRequest::ReadPc,
            GuestRequest::RemoveBreakpoint { addr: 0x10_3634 },
            GuestRequest::MapReadWrite { hint: 0, size: 1_048_576 },
        ]
    );
    assert_eq!(end, InitStep::Ready(Harness { input_addr: 0x7fff_0000, abort_addr: 0x10_beef }));
}

#[test]
fn any_stop_but_a_breakpoint_is_fatal_at_start() {
    for reason in [
        StopReason::End,
        StopReason::SyncExit,
        StopReason::Crash,
        StopReason::Timeout,
        StopReason::Unknown,
    ] {
        let state = Harness::init(Arch::X86_64, 0x4000_0000, None).expect("resolves");
        let replies = [GuestReply::Done, GuestReply::Done, GuestReply::Stopped(reason)];
        let (requests, end) = drive(state, &replies);
        assert_eq!(end, InitStep::Failed(HarnessError::UnexpectedStop(reason)));
        assert_eq!(requests.len(), 3);
        assert_eq!(requests[2], GuestRequest::Resume);
    }
}

#[test]
fn unreadable_pc_fails_initialisation_before_the_breakpoint_is_removed() {
    let state = Harness::init(Arch::X86_64, 0x4000_0000, None).expect("resolves");
    let replies = [
        GuestReply::Done,
        GuestReply::Done,
        GuestReply::Stopped(StopReason::Breakpoint(0x4000_1384)),
        GuestReply::Pc(None),
    ];
    let (requests, end) = drive(state, &replies);
    assert_eq!(end, InitStep::Failed(HarnessError::ReadPc));
    assert_eq!(requests.last(), Some(&GuestRequest::ReadPc));
}

#[test]
fn failed_mapping_fails_initialisation() {
    let state = Harness::init(Arch::X86_64, 0x4000_0000, None).expect("resolves");
    let mut replies = clean_replies(0);
    replies[5] = GuestReply::Mapped(None);
    let (requests, end) = drive(state, &replies);
    assert_eq!(end, InitStep::Failed(HarnessError::MapInput));
    assert_eq!(requests.len(), 6);
}

#[test]
fn a_reply_of_the_wrong_kind_is_refused() {
    let addresses = Addresses { entry: 1, end: 2, abort: 3 };
    let wrong = [
        (InitStage::ArmEntry, GuestReply::Pc(Some(1))),
        (InitStage::ArmEnd, GuestReply::Stopped(StopReason::Breakpoint(1))),
        (InitStage::RunToEntry, GuestReply::Done),
        (InitStage::ConfirmPc, GuestReply::Mapped(Some(1))),
        (InitStage::DisarmEntry, GuestReply::Mapped(None)),
        (InitStage::MapInput, GuestReply::Done),
    ];
    for (stage, reply) in wrong {
        let state = InitState { addresses, stage };
        assert_eq!(state.advance(reply), InitStep::Failed(HarnessError::UnexpectedReply));
    }
    assert_eq!(
        RunState::Resuming.advance(GuestReply::Done),
        RunStep::Failed(HarnessError::UnexpectedReply)
    );
    assert_eq!(
        RunState::ConfirmPc.advance(GuestReply::Stopped(StopReason::Breakpoint(1))),
        RunStep::Failed(HarnessError::UnexpectedReply)
    );
}

#[test]
fn each_stage_keeps_the_addresses_and_moves_one_place_on() {
    let addresses = Addresses { entry: 0x10, end: 0x20, abort: 0x30 };
    let steps = [
        (InitStage::ArmEntry, GuestReply::Done, InitStage::ArmEnd),
        (InitStage::ArmEnd, GuestReply::Done, InitStage::RunToEntry),
        (
            InitStage::RunToEntry,
            GuestReply::Stopped(StopReason::Breakpoint(0x10)),
            InitStage::ConfirmPc,
        ),
        (InitStage::ConfirmPc, GuestReply::Pc(Some(0x10)), InitStage::DisarmEntry),
        (InitStage::DisarmEntry, GuestReply::Done, InitStage::MapInput),
    ];
    for (stage, reply, next) in steps {
        let state = InitState { addresses, stage };
        assert_eq!(state.advance(reply), InitStep::Continue(InitState { addresses, stage: next }));
    }
}

#[test]
fn run_completes_on_a_breakpoint() {
    let harness = Harness { input_addr: 0x7000, abort_addr: 0 };
    let state = harness.run();
    assert_eq!(state, RunState::Resuming);
    assert_eq!(state.request(), GuestRequest::Resume);
    let step = state.advance(GuestReply::Stopped(StopReason::Breakpoint(0x14C0)));
    assert_eq!(step, RunStep::Continue(RunState::ConfirmPc));
    assert_eq!(RunState::ConfirmPc.request(), GuestRequest::ReadPc);
    assert_eq!(RunState::ConfirmPc.advance(GuestReply::Pc(Some(0x14C0))), RunStep::Completed);
}

#[test]
fn run_fails_on_any_other_stop() {
    for reason in [
        StopReason::End,
        StopReason::SyncExit,
        StopReason::Crash,
        StopReason::Timeout,
        StopReason::Unknown,
    ] {
        assert_eq!(
            RunState::Resuming.advance(GuestReply::Stopped(reason)),
            RunStep::Failed(HarnessError::UnexpectedStop(reason))
        );
    }
    assert_eq!(
        RunState::ConfirmPc.advance(GuestReply::Pc(None)),
        RunStep::Failed(HarnessError::ReadPc)
    );
}

#[test]
fn reset_plans_the_write_and_both_arguments() {
    let harness = Harness { input_addr: 0x7000_0000, abort_addr: 0 };
    let plan = harness.reset(b"tiff");
    assert_eq!(plan.write.addr, 0x7000_0000);
    assert_eq!(plan.write.bytes, b"tiff".to_vec());
    assert_eq!(plan.arg0, 0x7000_0000);
    assert_eq!(plan.arg1, 4);
}

#[test]
fn reset_cuts_the_candidate_to_the_input_region() {
    let harness = Harness { input_addr: 0x7000_0000, abort_addr: 0 };
    let mut candidate = vec![1u8; 1_048_576];
    candidate.extend_from_slice(&[2u8; 100]);
    let plan = harness.reset(&candidate);
    assert_eq!(plan.write.bytes, vec![1u8; 1_048_576]);
    assert_eq!(plan.arg1, 1_048_576);
    let empty = harness.reset(b"");
    assert!(empty.write.bytes.is_empty());
    assert_eq!(empty.arg1, 0);
}

#[test]
fn environment_and_arguments_are_left_alone() {
    let mut env = vec![("PATH".to_string(), "/bin".to_string())];
    Harness::edit_env(&mut env);
    assert_eq!(env, vec![("PATH".to_string(), "/bin".to_string())]);
    let mut args = vec!["target".to_string(), "@@".to_string()];
    Harness::edit_args(&mut args);
    assert_eq!(args, vec!["target".to_string(), "@@".to_string()]);
    Harness { input_addr: 1, abort_addr: 2 }.post_fork();
}
