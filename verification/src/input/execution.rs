//! Carrying out a plan.
//!
//! The host performs a plan one step at a time: it asks for the pending
//! step, submits the batch or waits, and records how the step went. The
//! first rejected submission ends the plan with the error that the
//! submission names; no later step is performed. A plan whose last step has
//! been performed ends well.

use crate::input::command::{
    click_plan, lemma_click_submits, plan_view, press, release, submitted, Step, StepView,
};
use crate::input::errors::MouseError;
use crate::input::event::{Button, InputEvent, PRESSED, RELEASED};
use vstd::prelude::*;

verus! {

/// A plan and how far the host has come with it.
#[derive(Debug)]
pub struct Execution {
    steps: Vec<Step>,
    position: usize,
    failure: Option<MouseError>,
}

impl Execution {
    #[verifier::type_invariant]
    spec fn always_consistent(self) -> bool {
        self.consistent()
    }

    /// The plan that is carried out.
    pub closed spec fn plan(&self) -> Seq<StepView> {
        plan_view(self.steps@)
    }

    /// The number of steps performed so far, a rejected one not counted.
    pub closed spec fn performed(&self) -> nat {
        self.position as nat
    }

    /// The error of the rejected submission, if one was rejected.
    pub closed spec fn failure(&self) -> Option<MouseError> {
        self.failure
    }

    /// What holds of every execution: no more steps are performed than the
    /// plan has, and a failure is the error named by the step at which the
    /// execution stopped, a submission.
    pub open spec fn consistent(&self) -> bool {
        &&& self.performed() <= self.plan().len()
        &&& self.failure() matches Some(error) ==> {
            &&& self.performed() < self.plan().len()
            &&& self.plan()[self.performed() as int] matches StepView::Submit { on_reject, .. }
            &&& on_reject == error
        }
    }

    /// Whether the plan has ended: a submission was rejected, or every step
    /// has been performed.
    pub open spec fn ended(&self) -> bool {
        self.failure() is Some || self.performed() == self.plan().len()
    }

    /// The events that the operating system has accepted so far.
    pub open spec fn accepted(&self) -> Seq<InputEvent> {
        submitted(self.plan().take(self.performed() as int))
    }

    /// How the plan ended: `None` while a step is pending.
    pub open spec fn spec_outcome(&self) -> Option<Result<(), MouseError>> {
        match self.failure() {
            Some(error) => Some(Err(error)),
            None => if self.performed() == self.plan().len() {
                Some(Ok(()))
            } else {
                None
            },
        }
    }

    /// Starts on `steps`, with nothing performed yet.
    pub fn begin(steps: Vec<Step>) -> (execution: Execution)
        ensures
            execution.consistent(),
            execution.plan() == plan_view(steps@),
            execution.performed() == 0,
            execution.failure() is None,
    {
        Execution { steps, position: 0, failure: None }
    }

    /// The step to perform now, or `None` when the plan has ended.
    pub fn pending(&self) -> (step: Option<&Step>)
        ensures
            self.consistent(),
            match step {
                Some(step) => !self.ended() && step@ == self.plan()[self.performed() as int],
                None => self.ended(),
            },
    {
        proof {
            use_type_invariant(self);
        }
        if self.failure.is_none() && self.position < self.steps.len() {
            Some(&self.steps[self.position])
        } else {
            None
        }
    }

    /// Records how the pending step went.
    ///
    /// For a submission `accepted` says whether the operating system took
    /// the batch. If it did not, the plan ends with the error that the
    /// submission names. A pause cannot be rejected: `accepted` is not read.
    pub fn record(&mut self, accepted: bool)
        requires
            !old(self).ended(),
        ensures
            final(self).consistent(),
            final(self).plan() == old(self).plan(),
            match old(self).plan()[old(self).performed() as int] {
                StepView::Submit { on_reject, .. } => if accepted {
                    &&& final(self).performed() == old(self).performed() + 1
                    &&& final(self).failure() is None
                } else {
                    &&& final(self).performed() == old(self).performed()
                    &&& final(self).failure() == Some(on_reject)
                },
                StepView::Pause { .. } => {
                    &&& final(self).performed() == old(self).performed() + 1
                    &&& final(self).failure() is None
                },
            },
    {
        proof {
            use_type_invariant(&*self);
        }
        assert(self.position < self.steps.len());
        let rejected = match &self.steps[self.position] {
            Step::Submit { on_reject, .. } => if accepted {
                None
            } else {
                Some(*on_reject)
            },
            Step::Pause { .. } => None,
        };
        match rejected {
            Some(error) => {
                self.failure = Some(error);
            },
            None => {
                self.position = self.position + 1;
            },
        }
    }

    /// How the plan ended: `Ok` when every step has been performed, the
    /// error of the rejected submission when one was rejected, and `None`
    /// while a step is pending.
    #[verifier::when_used_as_spec(spec_outcome)]
    pub fn outcome(&self) -> (outcome: Option<Result<(), MouseError>>)
        ensures
            self.consistent(),
            outcome == self.spec_outcome(),
    {
        proof {
            use_type_invariant(self);
        }
        match self.failure {
            Some(error) => Some(Err(error)),
            None => if self.position >= self.steps.len() {
                Some(Ok(()))
            } else {
                None
            },
        }
    }
}

/// A click that ended well has had both of its events accepted, the press
/// and then the release: it does not return with the button down.
pub proof fn lemma_completed_click(execution: Execution, key: Button)
    requires
        execution.consistent(),
        execution.plan() == click_plan(key),
        execution.outcome() == Some(Ok::<(), MouseError>(())),
    ensures
        execution.accepted() == seq![
            InputEvent::button(key, PRESSED),
            InputEvent::button(key, RELEASED),
        ],
{
    lemma_click_submits(key);
    assert(execution.plan().take(execution.performed() as int) =~= execution.plan());
}

/// A click can fail in one way only, with the error of a rejected button
/// event, and at two places: at the press, with nothing accepted, or at the
/// release, with the press accepted.
pub proof fn lemma_failed_click(execution: Execution, key: Button)
    requires
        execution.consistent(),
        execution.plan() == click_plan(key),
        execution.outcome() is Some,
        execution.outcome() != Some(Ok::<(), MouseError>(())),
    ensures
        execution.outcome() == Some(Err::<(), MouseError>(MouseError::ButtonEventEmitError)),
        execution.accepted() == Seq::<InputEvent>::empty() || execution.accepted()
            == seq![InputEvent::button(key, PRESSED)],
{
    let plan = click_plan(key);
    let at = execution.performed() as int;
    assert(plan[0] == press(key));
    assert(plan[2] == release(key));
    assert(at == 0 || at == 2);
    if at == 0 {
        assert(submitted(plan.take(0)) =~= Seq::<InputEvent>::empty());
    } else {
        let prefix = plan.take(2);
        assert(prefix.drop_last() =~= seq![press(key)]);
        assert(prefix.drop_last().drop_last() =~= Seq::<StepView>::empty());
        assert(submitted(prefix.drop_last().drop_last()) =~= Seq::<InputEvent>::empty());
        assert(submitted(prefix.drop_last()) =~= seq![InputEvent::button(key, PRESSED)]);
        assert(submitted(prefix) =~= seq![InputEvent::button(key, PRESSED)]);
    }
}

} // verus!
