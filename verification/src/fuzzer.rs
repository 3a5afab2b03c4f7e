//! The front end: which monitor to show and how to start the clients.

use vstd::prelude::*;

use crate::options::FuzzerOptions;

verus! {

/// Port of the stand-in broker that a single rerun attaches to.
pub const RERUN_BROKER_PORT: u16 = 13120;

/// How the fuzzer reports its statistics.
#[derive(Clone, Copy, Debug, PartialEq, Eq, Structural)]
pub enum MonitorKind {
    /// The terminal user interface.
    Tui,
    /// One line per report, on standard output and in the log file if one
    /// was named.
    Multi,
}

/// How the clients are started.
#[derive(Clone, Copy, Debug, PartialEq, Eq, Structural)]
pub enum LaunchPlan {
    /// Run one client directly, against a stand-in broker on
    /// `broker_port`, without restarts.
    Rerun { broker_port: u16 },
    /// Start the launcher with its broker on `broker_port`; the clients'
    /// output is discarded where `discard_output` holds.
    Launch { broker_port: u16, discard_output: bool },
}

/// The fuzzer as configured.
#[derive(Debug)]
pub struct Fuzzer {
    options: FuzzerOptions,
}

impl Fuzzer {
    /// The options that the fuzzer was made with.
    pub closed spec fn options_spec(self) -> FuzzerOptions {
        self.options
    }

    /// The monitor that the options call for.
    pub open spec fn monitor_spec(options: FuzzerOptions) -> MonitorKind {
        if options.tui {
            MonitorKind::Tui
        } else {
            MonitorKind::Multi
        }
    }

    /// The way of starting the clients that the options call for.
    pub open spec fn launch_plan_spec(options: FuzzerOptions) -> LaunchPlan {
        if options.rerun_input is Some {
            LaunchPlan::Rerun { broker_port: RERUN_BROKER_PORT }
        } else {
            LaunchPlan::Launch { broker_port: options.port, discard_output: !options.verbose }
        }
    }

    /// A fuzzer over the options as parsed.
    pub fn new(options: FuzzerOptions) -> (fuzzer: Fuzzer)
        ensures
            fuzzer.options_spec() == options,
    {
        Fuzzer { options }
    }

    /// The options that the fuzzer was made with.
    pub fn options(&self) -> (options: &FuzzerOptions)
        ensures
            *options == self.options_spec(),
    {
        &self.options
    }

    /// Chooses the monitor: the terminal user interface if it was asked
    /// for, plain lines otherwise.
    pub fn monitor(&self) -> (kind: MonitorKind)
        ensures
            kind == Fuzzer::monitor_spec(self.options_spec()),
    {
        if self.options.tui {
            MonitorKind::Tui
        } else {
            MonitorKind::Multi
        }
    }

    /// Chooses how to start the clients: a single direct run if an input is
    /// to be rerun, the launcher on the configured port otherwise.
    pub fn launch_plan(&self) -> (plan: LaunchPlan)
        ensures
            plan == Fuzzer::launch_plan_spec(self.options_spec()),
    {
        if self.options.rerun_input.is_some() {
            LaunchPlan::Rerun { broker_port: RERUN_BROKER_PORT }
        } else {
            LaunchPlan::Launch { broker_port: self.options.port, discard_output: !self.options.verbose }
        }
    }
}

} // verus!
