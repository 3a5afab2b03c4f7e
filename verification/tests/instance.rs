use guest_harness::fuzzer::{Fuzzer, LaunchPlan, MonitorKind, RERUN_BROKER_PORT};
use guest_harness::instance::{
    Campaign, CoverageFilter, Instance, InstanceError, LoopPlan, ModuleKind, Stage,
};
use guest_harness::options::{AddrRange, FuzzerOptions};
use guest_harness::tokens::collect_tokens;

fn options() -> FuzzerOptions {
    FuzzerOptions {
        tui: false,
        verbose: false,
        port: 1337,
        rerun_input: None,
        iterations: None,
        includes: None,
        excludes: None,
    }
}

fn allowed(filter: Result<CoverageFilter, InstanceError>) -> Vec<AddrRange> {
    match filter {
        Ok(CoverageFilter::Allow(ranges)) => ranges,
        other => panic!("expected an allow list, got {:?}", other),
    }
}

#[test]
fn modules_restore_then_stage_then_observe() {
    assert_eq!(
        Instance::module_order(),
        vec![
            ModuleKind::Snapshot,
            ModuleKind::RegisterReset,
            ModuleKind::InputInjector,
            ModuleKind::EdgeCoverage,
        ]
    );
}

#[test]
fn given_ranges_are_an_allow_list() {
    let mut opts = options();
    let ranges = vec![AddrRange { start: 0x1000, end: 0x2000 }, AddrRange { start: 0x5000, end: 0x5100 }];
    opts.includes = Some(ranges.clone());
    opts.excludes = Some(vec![AddrRange { start: 1, end: 2 }]);
    let instance = Instance::new(&opts, Vec::new());
    assert!(!instance.needs_text_section());
    assert_eq!(allowed(instance.coverage_filter(None)), ranges);
    assert_eq!(allowed(instance.coverage_filter(Some(AddrRange { start: 7, end: 8 }))), ranges);
}

#[test]
fn ranges_to_leave_out_are_a_deny_list() {
    let mut opts = options();
    let ranges = vec![AddrRange { start: 0x3000, end: 0x4000 }];
    opts.excludes = Some(ranges.clone());
    let instance = Instance::new(&opts, Vec::new());
    assert!(!instance.needs_text_section());
    match instance.coverage_filter(Some(AddrRange { start: 7, end: 8 })) {
        Ok(CoverageFilter::Deny(denied)) => assert_eq!(denied, ranges),
        other => panic!("expected a deny list, got {:?}", other),
    }
}

#[test]
fn text_section_is_the_fallback() {
    let opts = options();
    let instance = Instance::new(&opts, Vec::new());
    assert!(instance.needs_text_section());
    let text = AddrRange { start: 0x40_1000, end: 0x40_9000 };
    assert_eq!(allowed(instance.coverage_filter(Some(text))), vec![text]);
}

#[test]
fn missing_text_section_is_an_error() {
    let opts = options();
    let instance = Instance::new(&opts, Vec::new());
    assert!(matches!(instance.coverage_filter(None), Err(InstanceError::TextSectionNotFound)));
}

#[test]
fn campaign_follows_the_options_and_the_core() {
    let mut opts = options();
    assert_eq!(Instance::new(&opts, Vec::new()).campaign(false), Campaign::Plain);
    assert_eq!(Instance::new(&opts, Vec::new()).campaign(true), Campaign::Traced);
    opts.rerun_input = Some("crash-01".to_string());
    assert_eq!(Instance::new(&opts, Vec::new()).campaign(false), Campaign::Rerun);
    assert_eq!(Instance::new(&opts, Vec::new()).campaign(true), Campaign::Rerun);
}

#[test]
fn stages_run_in_their_fixed_order() {
    assert_eq!(Instance::stages(Campaign::Rerun), Vec::<Stage>::new());
    assert_eq!(Instance::stages(Campaign::Plain), vec![Stage::Mutational]);
    assert_eq!(
        Instance::stages(Campaign::Traced),
        vec![
            Stage::Calibration,
            Stage::Tracing,
            Stage::InputToState,
            Stage::PowerMutational,
            Stage::Stats,
        ]
    );
}

#[test]
fn loop_is_bounded_by_the_iterations() {
    let mut opts = options();
    assert_eq!(Instance::new(&opts, Vec::new()).loop_plan(), LoopPlan::Forever);
    opts.iterations = Some(0);
    assert_eq!(Instance::new(&opts, Vec::new()).loop_plan(), LoopPlan::Bounded(0));
    opts.iterations = Some(10_000);
    assert_eq!(Instance::new(&opts, Vec::new()).loop_plan(), LoopPlan::Bounded(10_000));
}

#[test]
fn tokens_keep_first_occurrences_in_order() {
    let extra = vec![
        "II*".to_string(),
        "MM".to_string(),
        "II*".to_string(),
        "\u{e9}".to_string(),
        "MM".to_string(),
        "".to_string(),
    ];
    let tokens = collect_tokens(&extra);
    assert_eq!(
        tokens.tokens(),
        &[b"II*".to_vec(), b"MM".to_vec(), vec![0xc3, 0xa9], Vec::new()][..]
    );
    let opts = options();
    let instance = Instance::new(&opts, extra);
    assert_eq!(instance.tokens().tokens(), tokens.tokens());
}

#[test]
fn no_tokens_give_an_empty_dictionary() {
    let tokens = collect_tokens(&Vec::new());
    assert!(tokens.is_empty());
    assert_eq!(tokens.len(), 0);
}

#[test]
fn fuzzer_keeps_its_options() {
    let mut opts = options();
    opts.port = 4242;
    opts.iterations = Some(5);
    let fuzzer = Fuzzer::new(opts);
    assert_eq!(fuzzer.options().port, 4242);
    assert_eq!(fuzzer.options().iterations, Some(5));
    assert!(!fuzzer.options().tui);
}

#[test]
fn monitor_is_the_tui_only_when_asked_for() {
    let mut opts = options();
    assert_eq!(Fuzzer::new(opts).monitor(), MonitorKind::Multi);
    opts = options();
    opts.tui = true;
    assert_eq!(Fuzzer::new(opts).monitor(), MonitorKind::Tui);
}

#[test]
fn launch_uses_the_configured_port_and_discards_output_unless_verbose() {
    let mut opts = options();
    assert_eq!(
        Fuzzer::new(opts).launch_plan(),
        LaunchPlan::Launch { broker_port: 1337, discard_output: true }
    );
    opts = options();
    opts.verbose = true;
    opts.port = 7777;
    assert_eq!(
        Fuzzer::new(opts).launch_plan(),
        LaunchPlan::Launch { broker_port: 7777, discard_output: false }
    );
}

#[test]
fn rerun_goes_to_the_stand_in_broker() {
    let mut opts = options();
    opts.rerun_input = Some("crash-01".to_string());
    opts.verbose = true;
    assert_eq!(RERUN_BROKER_PORT, 13120);
    assert_eq!(Fuzzer::new(opts).launch_plan(), LaunchPlan::Rerun { broker_port: 13120 });
}
