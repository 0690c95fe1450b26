//! Plans: what the operations of the virtual mouse submit.
//!
//! An operation is planned by the library and performed by the host. A plan
//! is a list of steps: submissions and pauses. A submission is a batch of
//! events that goes to the operating system as a whole, so that consumers
//! see one coordinated change; it names the error to report if the operating
//! system rejects it. How a plan is carried out, step by step, is the
//! business of [`Execution`](crate::input::execution::Execution).

use crate::input::errors::MouseError;
use crate::input::event::{Axis, Button, InputEvent, EV_KEY, PRESSED, RELEASED};
use vstd::prelude::*;

verus! {

/// Time a click holds the button down, in milliseconds: long enough for
/// consumers to take it for a click rather than a glitch.
pub const CLICK_HOLD_MILLIS: u64 = 50;

/// One step of a plan.
#[derive(Debug)]
pub enum Step {
    /// Submit `events` as one batch; report `on_reject` if it is rejected.
    Submit { events: Vec<InputEvent>, on_reject: MouseError },
    /// Do nothing for `millis` milliseconds.
    Pause { millis: u64 },
}

/// A step as a mathematical value.
pub enum StepView {
    Submit { events: Seq<InputEvent>, on_reject: MouseError },
    Pause { millis: u64 },
}

impl View for Step {
    type V = StepView;

    open spec fn view(&self) -> StepView {
        match self {
            Step::Submit { events, on_reject } => StepView::Submit {
                events: events@,
                on_reject: *on_reject,
            },
            Step::Pause { millis } => StepView::Pause { millis: *millis },
        }
    }
}

/// The steps of a plan as mathematical values.
pub open spec fn plan_view(steps: Seq<Step>) -> Seq<StepView> {
    steps.map_values(|step: Step| step@)
}

/// The step that presses `key`: one key event that reports it as down.
pub open spec fn press(key: Button) -> StepView {
    StepView::Submit {
        events: seq![InputEvent::button(key, PRESSED)],
        on_reject: MouseError::ButtonEventEmitError,
    }
}

/// The step that releases `key`: one key event that reports it as up.
pub open spec fn release(key: Button) -> StepView {
    StepView::Submit {
        events: seq![InputEvent::button(key, RELEASED)],
        on_reject: MouseError::ButtonEventEmitError,
    }
}

/// The events of a move of the pointer by `(x, y)`: the horizontal motion,
/// then the vertical one.
pub open spec fn move_events(x: i32, y: i32) -> Seq<InputEvent> {
    seq![InputEvent::motion(Axis::X, x), InputEvent::motion(Axis::Y, y)]
}

/// The step that moves the pointer by `(x, y)`: both motions in one batch.
pub open spec fn relative_move(x: i32, y: i32) -> StepView {
    StepView::Submit { events: move_events(x, y), on_reject: MouseError::AxisEventEmitError }
}

/// The plan of a click: press, hold, release.
pub open spec fn click_plan(key: Button) -> Seq<StepView> {
    seq![press(key), StepView::Pause { millis: CLICK_HOLD_MILLIS }, release(key)]
}

/// The events that the steps of `plan` submit, in order.
pub open spec fn submitted(plan: Seq<StepView>) -> Seq<InputEvent>
    decreases plan.len(),
{
    if plan.len() == 0 {
        Seq::empty()
    } else {
        submitted(plan.drop_last()) + match plan.last() {
            StepView::Submit { events, .. } => events,
            StepView::Pause { .. } => Seq::empty(),
        }
    }
}

/// The events that `count` clicks of `key` submit, one click after the other.
pub open spec fn clicks(key: Button, count: nat) -> Seq<InputEvent>
    decreases count,
{
    if count == 0 {
        Seq::empty()
    } else {
        clicks(key, (count - 1) as nat) + submitted(click_plan(key))
    }
}

/// Whether `key` is down after the events of `trace`: its last key event, if
/// there is one, does not report it as released.
pub open spec fn held(trace: Seq<InputEvent>, key: Button) -> bool
    decreases trace.len(),
{
    if trace.len() == 0 {
        false
    } else if trace.last().kind == EV_KEY && trace.last().code == key.code() {
        trace.last().value != RELEASED
    } else {
        held(trace.drop_last(), key)
    }
}

/// A plan of one step submits what that step submits.
pub proof fn lemma_single_step_submits(step: StepView)
    ensures
        submitted(seq![step]) == match step {
            StepView::Submit { events, .. } => events,
            StepView::Pause { .. } => Seq::empty(),
        },
{
    let plan = seq![step];
    assert(submitted(plan.drop_last()) =~= Seq::<InputEvent>::empty());
    assert(plan.last() == step);
    assert(submitted(plan) =~= match step {
        StepView::Submit { events, .. } => events,
        StepView::Pause { .. } => Seq::empty(),
    });
}

/// A click submits two events: the press of the button, then its release.
pub proof fn lemma_click_submits(key: Button)
    ensures
        submitted(click_plan(key)) == seq![
            InputEvent::button(key, PRESSED),
            InputEvent::button(key, RELEASED),
        ],
{
    let plan = click_plan(key);
    let pressed = plan.drop_last().drop_last();
    assert(submitted(pressed.drop_last()) =~= Seq::<InputEvent>::empty());
    assert(pressed.last() == press(key));
    assert(submitted(pressed) =~= seq![InputEvent::button(key, PRESSED)]);
    assert(plan.drop_last().last() == StepView::Pause { millis: CLICK_HOLD_MILLIS });
    assert(submitted(plan.drop_last()) =~= seq![InputEvent::button(key, PRESSED)]);
    assert(plan.last() == release(key));
    assert(submitted(plan) =~= seq![
        InputEvent::button(key, PRESSED),
        InputEvent::button(key, RELEASED),
    ]);
}

/// Repeated clicks submit alternating presses and releases of the button:
/// `count` clicks submit `2 * count` events, a press at every even position
/// and a release at every odd one.
pub proof fn lemma_clicks_alternate(key: Button, count: nat)
    ensures
        clicks(key, count).len() == 2 * count,
        forall|i: int|
            0 <= i < 2 * count ==> #[trigger] clicks(key, count)[i] == InputEvent::button(
                key,
                if i % 2 == 0 {
                    PRESSED
                } else {
                    RELEASED
                },
            ),
    decreases count,
{
    if count > 0 {
        lemma_clicks_alternate(key, (count - 1) as nat);
        lemma_click_submits(key);
    }
}

/// Clicks leave no button stuck: after any number of completed clicks of
/// `key`, following any earlier events, `key` is up, and every other button
/// is as it was before the clicks.
pub proof fn lemma_clicks_leave_released(
    earlier: Seq<InputEvent>,
    key: Button,
    count: nat,
    watched: Button,
)
    ensures
        held(earlier + clicks(key, count), watched) == if watched == key && count > 0 {
            false
        } else {
            held(earlier, watched)
        },
    decreases count,
{
    if count == 0 {
        assert(earlier + clicks(key, count) =~= earlier);
    } else {
        let before = earlier + clicks(key, (count - 1) as nat);
        let pressed = before.push(InputEvent::button(key, PRESSED));
        let released = pressed.push(InputEvent::button(key, RELEASED));
        lemma_clicks_leave_released(earlier, key, (count - 1) as nat, watched);
        lemma_click_submits(key);
        assert(earlier + clicks(key, count) =~= released);
        assert(released.drop_last() =~= pressed);
        assert(pressed.drop_last() =~= before);
        if watched != key {
            assert(held(released, watched) == held(pressed, watched));
            assert(held(pressed, watched) == held(before, watched));
        }
    }
}

} // verus!
