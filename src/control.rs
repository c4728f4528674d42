//! The mode-transition side of the event loop: on each confirmed click,
//! step to the next clock mode, reset the clock tree and apply the new
//! mode's configuration.
use vstd::prelude::*;
use crate::mode::{ClockMode, ModeSequencer, lemma_mode_frequencies};
use crate::tree::{
    ApplyError, ClockReadback, ClockTreeController, ControllerPhase, HwOp, apply_ops_spec,
    Settled, complete_result, reset_ops_spec,
};

verus! {

/// What the caller performs for one transition: the reset writes, then the
/// apply writes, then the indicator outputs.
#[derive(Debug)]
pub struct Transition {
    pub mode: ClockMode,
    pub reset_ops: Vec<HwOp>,
    pub apply_ops: Vec<HwOp>,
    pub indicators: (bool, bool),
}

/// Holds the current clock mode and the clock-tree controller.
#[derive(Clone, Copy, Debug)]
pub struct ModeControl {
    pub sequencer: ModeSequencer,
    pub tree: ClockTreeController,
}

impl ModeControl {
    pub open spec fn wf(self) -> bool {
        self.tree.wf()
    }

    /// Starts in the reset mode with an idle controller.
    pub fn new() -> (r: Self)
        ensures
            r.sequencer.mode == ClockMode::Reset4MHz,
            r.tree.phase == ControllerPhase::Idle,
            r.wf(),
    {
        ModeControl { sequencer: ModeSequencer::new(), tree: ClockTreeController::new() }
    }

    /// Resets the clock tree and applies the current mode's configuration,
    /// which never fails: every mode's configuration is free of faults.
    pub fn enter_current(&mut self) -> (r: Transition)
        requires
            old(self).wf(),
        ensures
            r.mode == old(self).sequencer.mode,
            final(self).sequencer == old(self).sequencer,
            r.reset_ops@ == reset_ops_spec(),
            r.apply_ops@ == apply_ops_spec(r.mode.config_spec()),
            r.indicators == r.mode.indicators_spec(),
            final(self).tree.phase == ControllerPhase::Configuring,
            final(self).tree.target == r.mode.config_spec(),
            final(self).wf(),
    {
        let mode = self.sequencer.mode;
        let reset_ops = self.tree.reset();
        let cfg = mode.config();
        proof {
            lemma_mode_frequencies(mode);
        }
        let apply_ops = match self.tree.apply(&cfg) {
            Ok(ops) => ops,
            Err(_) => {
                proof {
                    assert(false);
                }
                Vec::new()
            },
        };
        Transition { mode, reset_ops, apply_ops, indicators: mode.indicators() }
    }

    /// On a confirmed click: moves to the next mode and enters it.
    pub fn advance(&mut self) -> (r: Transition)
        requires
            old(self).wf(),
        ensures
            r.mode == old(self).sequencer.mode.next_spec(),
            final(self).sequencer.mode == r.mode,
            r.reset_ops@ == reset_ops_spec(),
            r.apply_ops@ == apply_ops_spec(r.mode.config_spec()),
            r.indicators == r.mode.indicators_spec(),
            final(self).tree.phase == ControllerPhase::Configuring,
            final(self).tree.target == r.mode.config_spec(),
            final(self).wf(),
    {
        self.sequencer.advance();
        self.enter_current()
    }

    /// Completes the transition against the live registers; see
    /// `ClockTreeController::complete`.
    pub fn settle(&mut self, rb: &ClockReadback) -> (r: Result<Settled, ApplyError>)
        requires
            old(self).wf(),
        ensures
            r == complete_result(old(self).tree, *rb),
            r is Ok ==> final(self).tree.phase == ControllerPhase::Stable,
            r is Err ==> final(self).tree == old(self).tree,
            final(self).sequencer == old(self).sequencer,
            final(self).wf(),
    {
        self.tree.complete(rb)
    }
}

} // verus!
