//! The action pipeline: the fixed, ordered sequence of one-shot platform
//! actions that runs when the timer fires. The library decides which step
//! comes next and what a failure means; the host performs each step (a
//! media-key event, a short wait, an OS suspend request) and reports back.
//! A step failure aborts every remaining step.

use vstd::prelude::*;

verus! {

/// One atomic platform action within the pipeline.
#[derive(Clone, Copy, Debug, PartialEq, Eq, Structural)]
pub enum ActionStep {
    /// Send a synthetic "toggle media playback" command.
    ToggleMedia,
    /// Wait a short fixed delay so playback actually pauses. Never fails.
    Wait,
    /// Request an OS suspend.
    Suspend,
}

/// Which pipeline configuration runs on firing.
#[derive(Clone, Copy, Debug, PartialEq, Eq, Structural)]
pub enum PipelineVariant {
    /// One step: request OS suspend.
    SingleAction,
    /// Three ordered steps: toggle media playback, wait briefly, suspend.
    MultiAction,
}

/// The ordered steps of a pipeline variant.
pub open spec fn spec_steps(v: PipelineVariant) -> Seq<ActionStep> {
    match v {
        PipelineVariant::SingleAction => seq![ActionStep::Suspend],
        PipelineVariant::MultiAction => seq![
            ActionStep::ToggleMedia,
            ActionStep::Wait,
            ActionStep::Suspend,
        ],
    }
}

/// One run of the pipeline: the steps of its variant are offered in order;
/// the first reported failure aborts the rest.
pub struct ActionPipeline {
    pub variant: PipelineVariant,
    /// Index of the next step to run.
    pub pos: usize,
    /// Set once a step fails: the index of the failed step and the host's
    /// description of the failure, reported verbatim.
    pub failure: Option<(usize, String)>,
}

impl ActionPipeline {
    pub open spec fn wf(self) -> bool {
        &&& self.pos <= spec_steps(self.variant).len()
        &&& (self.failure matches Some(f) ==> f.0 == self.pos && self.pos < spec_steps(
            self.variant,
        ).len())
    }

    /// The step the host must perform next: the next unrun step, unless the
    /// pipeline has completed or a step has failed.
    pub open spec fn spec_current_step(self) -> Option<ActionStep> {
        if self.failure is None && self.pos < spec_steps(self.variant).len() {
            Some(spec_steps(self.variant)[self.pos as int])
        } else {
            None
        }
    }

    /// A fresh run of the given variant, at its first step.
    pub fn new(variant: PipelineVariant) -> (r: ActionPipeline)
        ensures
            r.wf(),
            r.variant == variant,
            r.pos == 0,
            r.failure is None,
    {
        ActionPipeline { variant, pos: 0, failure: None }
    }

    /// The step to perform next, or `None` when the run is over.
    pub fn current_step(&self) -> (r: Option<ActionStep>)
        requires
            self.wf(),
        ensures
            r == self.spec_current_step(),
    {
        if self.failure.is_some() {
            return None;
        }
        match self.variant {
            PipelineVariant::SingleAction => {
                if self.pos == 0 {
                    Some(ActionStep::Suspend)
                } else {
                    None
                }
            },
            PipelineVariant::MultiAction => {
                if self.pos == 0 {
                    Some(ActionStep::ToggleMedia)
                } else if self.pos == 1 {
                    Some(ActionStep::Wait)
                } else if self.pos == 2 {
                    Some(ActionStep::Suspend)
                } else {
                    None
                }
            },
        }
    }

    /// The host performed the current step and it succeeded: the pipeline
    /// moves to the next step.
    pub fn step_succeeded(&mut self)
        requires
            old(self).wf(),
            old(self).spec_current_step() is Some,
        ensures
            final(self).wf(),
            *final(self) == (ActionPipeline { pos: (old(self).pos + 1) as usize, ..*old(self) }),
    {
        self.pos = self.pos + 1;
    }

    /// The host performed the current step and it failed: the failure is
    /// recorded verbatim and every remaining step is aborted — from here on
    /// no step is ever offered again.
    pub fn step_failed(&mut self, message: String)
        requires
            old(self).wf(),
            old(self).spec_current_step() is Some,
        ensures
            final(self).wf(),
            *final(self) == (ActionPipeline {
                failure: Some((old(self).pos, message)),
                ..*old(self)
            }),
            final(self).spec_current_step() is None,
    {
        self.failure = Some((self.pos, message));
    }

    /// Whether every step ran and succeeded.
    pub fn completed(&self) -> (r: bool)
        requires
            self.wf(),
        ensures
            r == (self.failure is None && self.pos == spec_steps(self.variant).len()),
    {
        let total: usize = match self.variant {
            PipelineVariant::SingleAction => 1,
            PipelineVariant::MultiAction => 3,
        };
        self.failure.is_none() && self.pos == total
    }

    /// The recorded failure: the index of the failed step and the host's
    /// description, exactly as reported.
    pub fn failure(&self) -> (r: &Option<(usize, String)>)
        ensures
            r == self.failure,
    {
        &self.failure
    }
}

/// The name a step is reported under when it fails.
pub open spec fn spec_step_name(step: ActionStep) -> Seq<char> {
    match step {
        ActionStep::ToggleMedia => "media toggle"@,
        ActionStep::Wait => "wait"@,
        ActionStep::Suspend => "suspend"@,
    }
}

pub fn step_name(step: ActionStep) -> (r: &'static str)
    ensures
        r@ == spec_step_name(step),
{
    match step {
        ActionStep::ToggleMedia => "media toggle",
        ActionStep::Wait => "wait",
        ActionStep::Suspend => "suspend",
    }
}

/// The message a step failure is reported with: the step's name, then the
/// host's description of the underlying platform failure, verbatim.
pub fn step_failure_message(step: ActionStep, detail: &str) -> (r: String)
    ensures
        r@ == spec_step_name(step) + " failed: "@ + detail@,
{
    let mut s = step_name(step).to_owned();
    s.append(" failed: ");
    s.append(detail);
    s
}

} // verus!
