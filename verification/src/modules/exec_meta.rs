//! The per-execution flag record read by the feedback side of the engine.

use vstd::prelude::*;

verus! {

/// Side channel of one execution: tells the engine whether the way the
/// execution ended must be left out of crash classification.
#[derive(Clone, Copy, Debug, PartialEq, Eq, Structural)]
pub struct ExecMeta {
    /// True once the guest took its own exit path in this execution.
    pub ignore: bool,
}

/// What the orchestrator tells the engine about one finished execution.
#[derive(Clone, Copy, Debug, PartialEq, Eq, Structural)]
pub enum Verdict {
    /// Classify the execution by how the emulator stopped.
    Normal,
    /// The guest exited on purpose: disregard the crash or hang signal.
    IgnoreSignal,
}

impl ExecMeta {
    /// A fresh record: nothing is ignored.
    pub fn new() -> (meta: ExecMeta)
        ensures
            !meta.ignore,
    {
        ExecMeta { ignore: false }
    }

    /// Clears the flag at the start of an execution.
    pub fn reset(&mut self)
        ensures
            !final(self).ignore,
    {
        self.ignore = false;
    }

    /// Records that the guest ended this execution through `exit` or
    /// `exit_group`.
    pub fn mark_engineered_exit(&mut self)
        ensures
            final(self).ignore,
    {
        self.ignore = true;
    }

    /// The verdict on the execution that just returned.
    pub open spec fn verdict_spec(self) -> Verdict {
        if self.ignore {
            Verdict::IgnoreSignal
        } else {
            Verdict::Normal
        }
    }

    /// Reads the flag once the execution has returned.
    pub fn verdict(&self) -> (v: Verdict)
        ensures
            v == self.verdict_spec(),
    {
        if self.ignore {
            Verdict::IgnoreSignal
        } else {
            Verdict::Normal
        }
    }
}

} // verus!
