//! The virtual pointer device.
//!
//! [`Mouse`] is the device as the library sees it: what it declares to the
//! operating system and what each of its operations submits. It touches
//! nothing. The host registers a device that declares what the mouse
//! declares, step by step as [`Setup`](crate::input::setup::Setup) says, and
//! carries out the plans that the operations hand back.

use crate::input::command::{
    click_plan, lemma_click_submits, lemma_single_step_submits, move_events, plan_view, press,
    relative_move, release, submitted, Step, StepView, CLICK_HOLD_MILLIS,
};
use crate::input::device::{lemma_every_event_supported, DeviceProfile};
use crate::input::errors::MouseError;
use crate::input::event::{key_event, move_event, Axis, Button, InputEvent, PRESSED, RELEASED};
use vstd::prelude::*;

pub mod command;
pub mod device;
pub mod errors;
pub mod event;
pub mod execution;
pub mod setup;

verus! {

/// The virtual mouse: two buttons, two relative axes.
#[derive(Debug)]
pub struct Mouse {
    profile: DeviceProfile,
}

impl Mouse {
    #[verifier::type_invariant]
    spec fn declared(self) -> bool {
        self.profile.is_mouse()
    }

    /// What the mouse declares when it is registered.
    pub closed spec fn spec_profile(&self) -> &DeviceProfile {
        &self.profile
    }

    /// Whether the mouse declares every event that `plan` submits.
    pub open spec fn supports(&self, plan: Seq<StepView>) -> bool {
        forall|i: int|
            0 <= i < submitted(plan).len() ==> self.profile().declares(#[trigger] submitted(plan)[i])
    }

    /// The virtual mouse.
    pub fn new() -> (mouse: Mouse)
        ensures
            mouse.profile().is_mouse(),
    {
        Mouse { profile: DeviceProfile::mouse() }
    }

    /// What the mouse declares when it is registered: its name, its
    /// identity, the left and the right button, the horizontal and the
    /// vertical axis.
    #[verifier::when_used_as_spec(spec_profile)]
    pub fn profile(&self) -> (profile: &DeviceProfile)
        ensures
            profile == self.spec_profile(),
            profile.is_mouse(),
    {
        proof {
            use_type_invariant(self);
        }
        &self.profile
    }

    fn press_step(key: Button) -> (step: Step)
        ensures
            step@ == press(key),
    {
        let mut events: Vec<InputEvent> = Vec::new();
        events.push(key_event(key, PRESSED));
        Step::Submit { events, on_reject: MouseError::ButtonEventEmitError }
    }

    fn release_step(key: Button) -> (step: Step)
        ensures
            step@ == release(key),
    {
        let mut events: Vec<InputEvent> = Vec::new();
        events.push(key_event(key, RELEASED));
        Step::Submit { events, on_reject: MouseError::ButtonEventEmitError }
    }

    /// Plans the press of `key`: a single submission of one key event that
    /// reports the button as down.
    pub fn key_down(&self, key: Button) -> (steps: Vec<Step>)
        ensures
            plan_view(steps@) == seq![press(key)],
            self.supports(plan_view(steps@)),
    {
        let mut steps: Vec<Step> = Vec::new();
        steps.push(Mouse::press_step(key));
        proof {
            use_type_invariant(self);
            assert(plan_view(steps@) =~= seq![press(key)]);
            lemma_single_step_submits(press(key));
            lemma_every_event_supported(self.profile);
        }
        steps
    }

    /// Plans the release of `key`: a single submission of one key event
    /// that reports the button as up.
    pub fn key_up(&self, key: Button) -> (steps: Vec<Step>)
        ensures
            plan_view(steps@) == seq![release(key)],
            self.supports(plan_view(steps@)),
    {
        let mut steps: Vec<Step> = Vec::new();
        steps.push(Mouse::release_step(key));
        proof {
            use_type_invariant(self);
            assert(plan_view(steps@) =~= seq![release(key)]);
            lemma_single_step_submits(release(key));
            lemma_every_event_supported(self.profile);
        }
        steps
    }

    /// Plans a click of `key`: the press, a pause of [`CLICK_HOLD_MILLIS`],
    /// the release.
    pub fn click(&self, key: Button) -> (steps: Vec<Step>)
        ensures
            plan_view(steps@) == click_plan(key),
            self.supports(plan_view(steps@)),
    {
        let mut steps: Vec<Step> = Vec::new();
        steps.push(Mouse::press_step(key));
        steps.push(Step::Pause { millis: CLICK_HOLD_MILLIS });
        steps.push(Mouse::release_step(key));
        proof {
            use_type_invariant(self);
            assert(plan_view(steps@) =~= click_plan(key));
            lemma_click_submits(key);
            lemma_every_event_supported(self.profile);
        }
        steps
    }

    /// Plans a click of the left button.
    pub fn left_click(&self) -> (steps: Vec<Step>)
        ensures
            plan_view(steps@) == click_plan(Button::Left),
            self.supports(plan_view(steps@)),
    {
        self.click(Button::Left)
    }

    /// Plans a click of the right button.
    pub fn right_click(&self) -> (steps: Vec<Step>)
        ensures
            plan_view(steps@) == click_plan(Button::Right),
            self.supports(plan_view(steps@)),
    {
        self.click(Button::Right)
    }

    /// Plans a move of the pointer by `(x, y)`: a single submission of both
    /// motions, the horizontal one first.
    pub fn pointer_move(&self, x: i32, y: i32) -> (steps: Vec<Step>)
        ensures
            plan_view(steps@) == seq![relative_move(x, y)],
            self.supports(plan_view(steps@)),
    {
        let mut events: Vec<InputEvent> = Vec::new();
        events.push(move_event(Axis::X, x));
        events.push(move_event(Axis::Y, y));
        assert(events@ =~= move_events(x, y));
        let mut steps: Vec<Step> = Vec::new();
        steps.push(Step::Submit { events, on_reject: MouseError::AxisEventEmitError });
        proof {
            use_type_invariant(self);
            assert(plan_view(steps@) =~= seq![relative_move(x, y)]);
            lemma_single_step_submits(relative_move(x, y));
            lemma_every_event_supported(self.profile);
        }
        steps
    }
}

} // verus!
