//! The idle-driven controller.
//!
//! Once per poll interval the host reads how long the user has been idle and
//! hands the sample to the controller, which answers whether the pointer is
//! to be moved and by how much. The host performs the move and reports how it
//! went; the controller then returns to checking.

use crate::cli::Args;
use crate::input::command::move_events;
use crate::input::errors::MouseError;
use crate::input::event::{InputEvent, EV_REL};
use crate::random::uniform;
use vstd::prelude::*;

verus! {

/// Time between two idle checks, in milliseconds.
pub const POLL_INTERVAL_MILLIS: u64 = 1000;

/// Milliseconds in one minute.
pub const MILLIS_PER_MINUTE: u64 = 60_000;

/// Exit status of the process when the device cannot be set up.
pub const FAILURE_STATUS: i32 = 1;

/// The idle threshold in milliseconds for a threshold given in minutes.
pub open spec fn threshold_millis(minutes: u64) -> int {
    minutes * MILLIS_PER_MINUTE
}

/// Whether an idle sample, in milliseconds, exceeds a threshold given in minutes.
pub open spec fn exceeds(idle: u64, minutes: u64) -> bool {
    idle > threshold_millis(minutes)
}

/// Whether `delta` is an admissible movement along one axis for the
/// configured `range`: a value of `[-range, range)`, or zero where that
/// interval is empty.
pub open spec fn within_range(range: i32, delta: i32) -> bool {
    if range == 0 {
        delta == 0
    } else {
        -range <= delta < range
    }
}

/// Decides whether an idle sample exceeds the threshold.
///
/// The comparison is made on the mathematical product: a threshold too large
/// for a `u64` of milliseconds is never exceeded.
pub fn idle_exceeds(idle: u64, minutes: u64) -> (exceeded: bool)
    ensures
        exceeded == exceeds(idle, minutes),
{
    match minutes.checked_mul(MILLIS_PER_MINUTE) {
        Some(threshold) => idle > threshold,
        None => false,
    }
}

/// Draws the movement along one axis for the configured `range`.
///
/// A range of zero leaves nothing to draw: the movement is zero. Otherwise
/// the movement is one draw from `[-range, range)`. Which value of the
/// interval comes out is left to chance, so no more than the interval is
/// promised; [`Controller::decide`] takes drawn movements as arguments and
/// says exactly what becomes of them.
pub fn draw_delta(range: i32) -> (delta: i32)
    requires
        range >= 0,
    ensures
        within_range(range, delta),
{
    if range == 0 {
        0
    } else {
        uniform(-range, range)
    }
}

/// The two logical states of the controller.
#[derive(Clone, Copy, Debug, PartialEq, Eq, Structural)]
pub enum State {
    /// Waiting for the next idle sample.
    IdleCheck,
    /// A move has been issued and its outcome is awaited.
    Acting,
}

/// What the host is to do after an idle sample.
#[derive(Clone, Copy, Debug, PartialEq, Eq, Structural)]
pub enum Action {
    /// Nothing; check again after the poll interval.
    Wait,
    /// Move the pointer by `(x, y)`; `idle` is the sample that caused it.
    Move { idle: u64, x: i32, y: i32 },
}

/// What the controller answers to one idle sample when `(x, y)` is what the
/// pointer would move by: a move by `(x, y)` exactly when the sample exceeds
/// the threshold of `args`.
pub open spec fn decision(args: Args, idle: u64, x: i32, y: i32) -> Action {
    if exceeds(idle, args.idle_time) {
        Action::Move { idle, x, y }
    } else {
        Action::Wait
    }
}

/// Why the process ends before the control loop starts.
#[derive(Clone, Copy, Debug, PartialEq, Eq, Structural)]
pub struct Fatal {
    /// The setup error to report.
    pub error: MouseError,
    /// The exit status of the process.
    pub status: i32,
}

/// The controller: the configuration and the state of the decision loop.
#[derive(Debug)]
pub struct Controller {
    args: Args,
    state: State,
}

impl Controller {
    #[verifier::type_invariant]
    spec fn admitted(self) -> bool {
        self.args.valid()
    }

    /// The configuration the controller was started with.
    pub closed spec fn spec_args(&self) -> Args {
        self.args
    }

    /// The state the controller is in.
    pub closed spec fn spec_state(&self) -> State {
        self.state
    }

    /// The configuration the controller was started with.
    #[verifier::when_used_as_spec(spec_args)]
    pub fn args(&self) -> (args: Args)
        ensures
            args == self.spec_args(),
            args.valid(),
    {
        proof {
            use_type_invariant(self);
        }
        self.args
    }

    /// The state the controller is in.
    #[verifier::when_used_as_spec(spec_state)]
    pub fn state(&self) -> (state: State)
        ensures
            state == self.spec_state(),
    {
        self.state
    }

    /// A controller for `args`, waiting for its first idle sample.
    pub fn new(args: Args) -> (controller: Controller)
        requires
            args.valid(),
        ensures
            controller.args() == args,
            controller.state() == State::IdleCheck,
    {
        Controller { args, state: State::IdleCheck }
    }

    /// Starts the controller on the outcome of the device setup.
    ///
    /// With a device the controller is handed out together with it, waiting
    /// for its first idle sample. A setup error is fatal: no controller is
    /// made, and the error comes back with the exit status of the process.
    pub fn start<D>(args: Args, device: Result<D, MouseError>) -> (started: Result<
        (Controller, D),
        Fatal,
    >)
        requires
            args.valid(),
        ensures
            match device {
                Ok(handle) => {
                    &&& started matches Ok((controller, kept))
                    &&& kept == handle
                    &&& controller.args() == args
                    &&& controller.state() == State::IdleCheck
                },
                Err(error) => started == Err::<(Controller, D), Fatal>(
                    Fatal { error, status: FAILURE_STATUS },
                ),
            },
    {
        match device {
            Ok(handle) => Ok((Controller::new(args), handle)),
            Err(error) => Err(Fatal { error, status: FAILURE_STATUS }),
        }
    }

    /// Decides on one idle sample, in milliseconds, with the deltas to move
    /// by given: `(x, y)` is what the pointer moves by if a move is due.
    ///
    /// The pointer is moved exactly when the sample exceeds the threshold;
    /// the controller then awaits the outcome of the move.
    pub fn decide(&mut self, idle: u64, x: i32, y: i32) -> (action: Action)
        requires
            old(self).state() == State::IdleCheck,
            within_range(old(self).args().mouse_range, x),
            within_range(old(self).args().mouse_range, y),
        ensures
            final(self).args() == old(self).args(),
            action == decision(old(self).args(), idle, x, y),
            final(self).state() == if action is Move {
                State::Acting
            } else {
                State::IdleCheck
            },
    {
        proof {
            use_type_invariant(&*self);
        }
        if idle_exceeds(idle, self.args.idle_time) {
            self.state = State::Acting;
            Action::Move { idle, x, y }
        } else {
            Action::Wait
        }
    }

    /// Takes one idle sample, in milliseconds, and decides.
    ///
    /// The pointer is moved exactly when the sample exceeds the threshold.
    /// The two deltas are then drawn, one after the other, each admissible
    /// for the configured range, and the controller awaits the outcome of
    /// the move. Which deltas are drawn is left to chance.
    pub fn poll(&mut self, idle: u64) -> (action: Action)
        requires
            old(self).state() == State::IdleCheck,
        ensures
            final(self).args() == old(self).args(),
            exceeds(idle, old(self).args().idle_time) ==> {
                &&& final(self).state() == State::Acting
                &&& action matches Action::Move { idle: sample, x, y }
                &&& sample == idle
                &&& within_range(old(self).args().mouse_range, x)
                &&& within_range(old(self).args().mouse_range, y)
            },
            !exceeds(idle, old(self).args().idle_time) ==> {
                &&& final(self).state() == State::IdleCheck
                &&& action == Action::Wait
            },
    {
        proof {
            use_type_invariant(&*self);
        }
        if idle_exceeds(idle, self.args.idle_time) {
            let x = draw_delta(self.args.mouse_range);
            let y = draw_delta(self.args.mouse_range);
            self.decide(idle, x, y)
        } else {
            Action::Wait
        }
    }

    /// Takes the outcome of the move that [`Controller::poll`] asked for.
    ///
    /// Whatever the outcome, the controller returns to checking. A failed
    /// move is not fatal: its error is handed back to be reported, and the
    /// next sample is taken as usual.
    pub fn complete(&mut self, outcome: Result<(), MouseError>) -> (report: Option<MouseError>)
        requires
            old(self).state() == State::Acting,
        ensures
            final(self).args() == old(self).args(),
            final(self).state() == State::IdleCheck,
            report == match outcome {
                Ok(_) => None,
                Err(error) => Some(error),
            },
    {
        proof {
            use_type_invariant(&*self);
        }
        self.state = State::IdleCheck;
        match outcome {
            Ok(_) => None,
            Err(error) => Some(error),
        }
    }
}

/// One turn of the control loop as the controller sees it: the idle sample
/// and the deltas drawn for it.
pub struct Turn {
    pub idle: u64,
    pub x: i32,
    pub y: i32,
}

/// What [`Controller::decide`] answers on each turn of a run, in order. The
/// configuration does not change over a run, and every turn starts in
/// [`State::IdleCheck`]: a wait leaves the state as it is, and a move is
/// completed before the next sample is taken.
pub open spec fn answers(args: Args, turns: Seq<Turn>) -> Seq<Action> {
    turns.map_values(|turn: Turn| decision(args, turn.idle, turn.x, turn.y))
}

/// Whether every event of `events` is a relative motion by a value that is
/// admissible for `range`.
pub open spec fn stays_within(range: i32, events: Seq<InputEvent>) -> bool {
    forall|i: int|
        0 <= i < events.len() ==> (#[trigger] events[i]).kind == EV_REL && within_range(
            range,
            events[i].value,
        )
}

/// Over a run, the controller answers with a wait for as long as the idle
/// samples stay at or below `idle_time * 60000` milliseconds, and with a move
/// on the first sample above it: a move by the deltas of that turn, carrying
/// that sample.
pub proof fn lemma_moves_on_first_excess(args: Args, turns: Seq<Turn>, first: int)
    requires
        0 <= first < turns.len(),
        forall|i: int| 0 <= i < first ==> turns[i].idle <= args.idle_time * 60000,
        turns[first].idle > args.idle_time * 60000,
    ensures
        answers(args, turns).len() == turns.len(),
        forall|i: int| 0 <= i < first ==> answers(args, turns)[i] == Action::Wait,
        answers(args, turns)[first] == (Action::Move {
            idle: turns[first].idle,
            x: turns[first].x,
            y: turns[first].y,
        }),
{
    assert forall|i: int| 0 <= i < first implies answers(args, turns)[i] == Action::Wait by {
        assert(!exceeds(turns[i].idle, args.idle_time));
    }
    assert(exceeds(turns[first].idle, args.idle_time));
}

/// Over a run whose deltas are all admissible for the configured range,
/// every move that the controller answers with submits relative motions
/// only, each by a value of `[-range, range)`, and by zero where the range
/// is zero.
pub proof fn lemma_moves_stay_within_range(args: Args, turns: Seq<Turn>)
    requires
        args.valid(),
        forall|i: int|
            0 <= i < turns.len() ==> within_range(args.mouse_range, (#[trigger] turns[i]).x)
                && within_range(args.mouse_range, turns[i].y),
    ensures
        forall|i: int|
            0 <= i < turns.len() ==> match #[trigger] answers(args, turns)[i] {
                Action::Move { x, y, .. } => stays_within(args.mouse_range, move_events(x, y)),
                Action::Wait => true,
            },
{
    assert forall|i: int| 0 <= i < turns.len() implies match #[trigger] answers(args, turns)[i] {
        Action::Move { x, y, .. } => stays_within(args.mouse_range, move_events(x, y)),
        Action::Wait => true,
    } by {
        let turn = turns[i];
        assert(answers(args, turns)[i] == decision(args, turn.idle, turn.x, turn.y));
        assert(within_range(args.mouse_range, turn.x) && within_range(args.mouse_range, turn.y));
        let events = move_events(turn.x, turn.y);
        assert(events[0].value == turn.x && events[1].value == turn.y);
    }
}

} // verus!
