//! One fuzzing client: the order of the emulator's modules, where coverage
//! is collected, and which kind of campaign is run.

use libafl::mutators::Tokens;
use vstd::prelude::*;

use crate::options::{AddrRange, FuzzerOptions};
use crate::tokens::{collect_tokens, first_occurrences, token_bytes, tokens_held};

verus! {

/// A module of the emulator's per-execution pipeline.
#[derive(Clone, Copy, Debug, PartialEq, Eq, Structural)]
pub enum ModuleKind {
    /// Restores the guest's memory to the state after initialisation.
    Snapshot,
    /// Restores the guest's registers to the state after initialisation.
    RegisterReset,
    /// Stages the candidate and answers the guest's system calls.
    InputInjector,
    /// Collects edge coverage.
    EdgeCoverage,
}

/// Where edge coverage is collected.
#[derive(Debug)]
pub enum CoverageFilter {
    /// Only in these ranges.
    Allow(Vec<AddrRange>),
    /// Everywhere but in these ranges.
    Deny(Vec<AddrRange>),
}

/// Mathematical value of a [`CoverageFilter`].
pub enum CoverageFilterView {
    Allow(Seq<AddrRange>),
    Deny(Seq<AddrRange>),
}

/// Why a client could not be set up.
#[derive(Clone, Copy, Debug, PartialEq, Eq, Structural)]
pub enum InstanceError {
    /// The binary has no `.text` section to fall back on.
    TextSectionNotFound,
}

/// The kind of campaign a client runs.
#[derive(Clone, Copy, Debug, PartialEq, Eq, Structural)]
pub enum Campaign {
    /// Run the one given input and stop.
    Rerun,
    /// Fuzz with comparison tracing.
    Traced,
    /// Fuzz with havoc mutations alone.
    Plain,
}

/// A stage of the fuzzing loop.
#[derive(Clone, Copy, Debug, PartialEq, Eq, Structural)]
pub enum Stage {
    Calibration,
    Tracing,
    InputToState,
    PowerMutational,
    Stats,
    Mutational,
}

/// How long the fuzzing loop runs.
#[derive(Clone, Copy, Debug, PartialEq, Eq, Structural)]
pub enum LoopPlan {
    /// For this many iterations; the state is then stored for the restart.
    Bounded(u64),
    /// Until the process is stopped.
    Forever,
}

impl View for CoverageFilter {
    type V = CoverageFilterView;

    open spec fn view(&self) -> CoverageFilterView {
        match *self {
            CoverageFilter::Allow(ranges) => CoverageFilterView::Allow(ranges@),
            CoverageFilter::Deny(ranges) => CoverageFilterView::Deny(ranges@),
        }
    }
}

/// The modules in the order in which the emulator runs their hooks.
pub open spec fn module_order_spec() -> Seq<ModuleKind> {
    seq![
        ModuleKind::Snapshot,
        ModuleKind::RegisterReset,
        ModuleKind::InputInjector,
        ModuleKind::EdgeCoverage,
    ]
}

/// The filter that the options and the binary's `.text` section call for:
/// the ranges to cover if any were given, else all but the ranges to leave
/// out if any were given, else the `.text` section alone.
pub open spec fn coverage_filter_spec(options: FuzzerOptions, text: Option<AddrRange>) -> Result<
    CoverageFilterView,
    InstanceError,
> {
    if options.includes is Some {
        Ok(CoverageFilterView::Allow(options.includes->0@))
    } else if options.excludes is Some {
        Ok(CoverageFilterView::Deny(options.excludes->0@))
    } else if text is Some {
        Ok(CoverageFilterView::Allow(seq![text->0]))
    } else {
        Err(InstanceError::TextSectionNotFound)
    }
}

/// The campaign that the options call for on a core that is, or is not, set
/// aside for comparison tracing.
pub open spec fn campaign_spec(options: FuzzerOptions, tracing_core: bool) -> Campaign {
    if options.rerun_input is Some {
        Campaign::Rerun
    } else if tracing_core {
        Campaign::Traced
    } else {
        Campaign::Plain
    }
}

/// The stages of a campaign, in the order in which they run.
pub open spec fn stages_spec(campaign: Campaign) -> Seq<Stage> {
    match campaign {
        Campaign::Rerun => Seq::empty(),
        Campaign::Traced => seq![
            Stage::Calibration,
            Stage::Tracing,
            Stage::InputToState,
            Stage::PowerMutational,
            Stage::Stats,
        ],
        Campaign::Plain => seq![Stage::Mutational],
    }
}

/// The loop that the options call for.
pub open spec fn loop_plan_spec(options: FuzzerOptions) -> LoopPlan {
    match options.iterations {
        Some(iterations) => LoopPlan::Bounded(iterations),
        None => LoopPlan::Forever,
    }
}

/// A copy of `ranges`.
fn copy_ranges(ranges: &Vec<AddrRange>) -> (copy: Vec<AddrRange>)
    ensures
        copy@ == ranges@,
{
    let mut copy: Vec<AddrRange> = Vec::new();
    let mut i: usize = 0;
    while i < ranges.len()
        invariant
            i <= ranges.len(),
            copy@ == ranges@.take(i as int),
        decreases ranges.len() - i,
    {
        copy.push(ranges[i]);
        i = i + 1;
        assert(ranges@.take(i as int) == ranges@.take(i - 1).push(ranges@[i - 1]));
    }
    assert(ranges@.take(ranges.len() as int) == ranges@);
    copy
}

/// One fuzzing client.
#[derive(Debug)]
pub struct Instance<'a> {
    options: &'a FuzzerOptions,
    extra_tokens: Vec<String>,
}

impl<'a> Instance<'a> {
    /// The options of this client.
    pub closed spec fn options_spec(self) -> FuzzerOptions {
        *self.options
    }

    /// The tokens that this client was given as text.
    pub closed spec fn extra_tokens_spec(self) -> Seq<String> {
        self.extra_tokens@
    }

    /// A client over `options`, with `extra_tokens` for its dictionary.
    pub fn new(options: &'a FuzzerOptions, extra_tokens: Vec<String>) -> (instance: Instance<'a>)
        ensures
            instance.options_spec() == *options,
            instance.extra_tokens_spec() == extra_tokens@,
    {
        Instance { options, extra_tokens }
    }

    /// The dictionary of this client: the tokens it was given, repetitions
    /// left out.
    pub fn tokens(&self) -> (tokens: Tokens)
        ensures
            tokens_held(tokens) == first_occurrences(token_bytes(self.extra_tokens_spec())),
    {
        collect_tokens(&self.extra_tokens)
    }

    /// The emulator's modules, first to run first. The modules that restore
    /// the guest come before the injector, and the injector before coverage
    /// collection.
    pub fn module_order() -> (order: Vec<ModuleKind>)
        ensures
            order@ == module_order_spec(),
    {
        let mut order: Vec<ModuleKind> = Vec::new();
        order.insert(0, ModuleKind::EdgeCoverage);
        order.insert(0, ModuleKind::InputInjector);
        order.insert(0, ModuleKind::RegisterReset);
        order.insert(0, ModuleKind::Snapshot);
        order
    }

    /// Whether [`Instance::coverage_filter`] falls back on the binary's
    /// `.text` section, so that the binary has to be read.
    pub fn needs_text_section(&self) -> (needed: bool)
        ensures
            needed == (self.options_spec().includes is None && self.options_spec().excludes is None),
    {
        self.options.includes.is_none() && self.options.excludes.is_none()
    }

    /// Decides where coverage is collected. `text` is the binary's `.text`
    /// section, if it has one; it is looked at only where neither ranges to
    /// cover nor ranges to leave out were given.
    pub fn coverage_filter(&self, text: Option<AddrRange>) -> (filter: Result<
        CoverageFilter,
        InstanceError,
    >)
        ensures
            match coverage_filter_spec(self.options_spec(), text) {
                Ok(expected) => filter matches Ok(f) && f@ == expected,
                Err(e) => filter matches Err(got) && got == e,
            },
    {
        if let Some(includes) = &self.options.includes {
            Ok(CoverageFilter::Allow(copy_ranges(includes)))
        } else if let Some(excludes) = &self.options.excludes {
            Ok(CoverageFilter::Deny(copy_ranges(excludes)))
        } else {
            match text {
                Some(range) => {
                    let mut ranges: Vec<AddrRange> = Vec::new();
                    ranges.push(range);
                    Ok(CoverageFilter::Allow(ranges))
                },
                None => Err(InstanceError::TextSectionNotFound),
            }
        }
    }

    /// Decides the kind of campaign: a rerun if an input to rerun was given,
    /// else fuzzing, with comparison tracing on the cores set aside for it.
    pub fn campaign(&self, tracing_core: bool) -> (campaign: Campaign)
        ensures
            campaign == campaign_spec(self.options_spec(), tracing_core),
    {
        if self.options.rerun_input.is_some() {
            Campaign::Rerun
        } else if tracing_core {
            Campaign::Traced
        } else {
            Campaign::Plain
        }
    }

    /// The stages of `campaign`, in the order in which they run.
    pub fn stages(campaign: Campaign) -> (stages: Vec<Stage>)
        ensures
            stages@ == stages_spec(campaign),
    {
        let mut stages: Vec<Stage> = Vec::new();
        match campaign {
            Campaign::Rerun => {},
            Campaign::Traced => {
                stages.push(Stage::Calibration);
                stages.push(Stage::Tracing);
                stages.push(Stage::InputToState);
                stages.push(Stage::PowerMutational);
                stages.push(Stage::Stats);
            },
            Campaign::Plain => {
                stages.push(Stage::Mutational);
            },
        }
        stages
    }

    /// Decides how long the fuzzing loop runs.
    pub fn loop_plan(&self) -> (plan: LoopPlan)
        ensures
            plan == loop_plan_spec(self.options_spec()),
    {
        match self.options.iterations {
            Some(iterations) => LoopPlan::Bounded(iterations),
            None => LoopPlan::Forever,
        }
    }
}

/// The modules that restore the guest run before the injector stages the
/// next candidate, and the injector runs before coverage is collected.
pub proof fn law_restore_then_stage_then_observe()
    ensures
        ({
            let order = module_order_spec();
            &&& order.no_duplicates()
            &&& order.index_of(ModuleKind::Snapshot) < order.index_of(ModuleKind::InputInjector)
            &&& order.index_of(ModuleKind::RegisterReset) < order.index_of(
                ModuleKind::InputInjector,
            )
            &&& order.index_of(ModuleKind::InputInjector) < order.index_of(
                ModuleKind::EdgeCoverage,
            )
        }),
{
    let order = module_order_spec();
    assert(order[0] == ModuleKind::Snapshot);
    assert(order[1] == ModuleKind::RegisterReset);
    assert(order[2] == ModuleKind::InputInjector);
    assert(order[3] == ModuleKind::EdgeCoverage);
    order.index_of_first_ensures(ModuleKind::Snapshot);
    order.index_of_first_ensures(ModuleKind::RegisterReset);
    order.index_of_first_ensures(ModuleKind::InputInjector);
    order.index_of_first_ensures(ModuleKind::EdgeCoverage);
}

} // verus!
