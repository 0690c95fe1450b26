//! Registering the device.
//!
//! Registration is a fixed run of steps that the host performs one at a
//! time, recording how each went. Four of them can be refused by the
//! operating system: opening the builder, declaring the buttons, declaring
//! the axes and creating the device. The first refusal ends the setup with
//! the error of its step; nothing is tried again. After the device has been
//! created the host waits once, for [`SETTLE_MILLIS`], and the setup is
//! ready.

use crate::input::device::SETTLE_MILLIS;
use crate::input::errors::MouseError;
use vstd::prelude::*;

verus! {

/// One step of the registration.
#[derive(Clone, Copy, Debug, PartialEq, Eq, Structural)]
pub enum SetupStep {
    /// Open the builder of the device.
    OpenBuilder,
    /// Declare the buttons of the mouse.
    AssignKeys,
    /// Declare the relative axes of the mouse.
    AssignAxes,
    /// Create the device with the name and the identity of the mouse.
    CreateDevice,
    /// Wait for `millis` milliseconds, so that the operating system can make
    /// the device known to other input consumers.
    Settle { millis: u64 },
}

/// How far the registration has come.
#[derive(Clone, Copy, Debug, PartialEq, Eq, Structural)]
pub enum Setup {
    /// The step to perform now.
    Pending(SetupStep),
    /// The device is registered and has settled.
    Ready,
    /// A step was refused; the setup has ended with this error.
    Failed(MouseError),
}

/// The error that a refusal of `step` ends the setup with, where `step` can
/// be refused.
pub open spec fn refusal(step: SetupStep) -> Option<MouseError> {
    match step {
        SetupStep::OpenBuilder => Some(MouseError::BuilderInitError),
        SetupStep::AssignKeys => Some(MouseError::KeysAssignError),
        SetupStep::AssignAxes => Some(MouseError::AxesAssignError),
        SetupStep::CreateDevice => Some(MouseError::CreateDeviceError),
        SetupStep::Settle { .. } => None,
    }
}

/// What follows `step` when it went well.
pub open spec fn successor(step: SetupStep) -> Setup {
    match step {
        SetupStep::OpenBuilder => Setup::Pending(SetupStep::AssignKeys),
        SetupStep::AssignKeys => Setup::Pending(SetupStep::AssignAxes),
        SetupStep::AssignAxes => Setup::Pending(SetupStep::CreateDevice),
        SetupStep::CreateDevice => Setup::Pending(SetupStep::Settle { millis: SETTLE_MILLIS }),
        SetupStep::Settle { .. } => Setup::Ready,
    }
}

/// The setup after `step`, given whether the step went well. A step that
/// cannot be refused always goes well.
pub open spec fn after(step: SetupStep, went: bool) -> Setup {
    match refusal(step) {
        Some(error) => if went {
            successor(step)
        } else {
            Setup::Failed(error)
        },
        None => successor(step),
    }
}

impl Setup {
    /// Whether the setup has ended, well or not.
    pub open spec fn ended(self) -> bool {
        !(self is Pending)
    }

    /// The setup after one more report of the host. A setup that has ended
    /// stays as it is.
    pub open spec fn advanced(self, went: bool) -> Setup {
        match self {
            Setup::Pending(step) => after(step, went),
            _ => self,
        }
    }

    /// The setup after the host has reported `reports`, one report for each
    /// step it performed, in order.
    pub open spec fn run(reports: Seq<bool>) -> Setup
        decreases reports.len(),
    {
        if reports.len() == 0 {
            Setup::Pending(SetupStep::OpenBuilder)
        } else {
            Setup::run(reports.drop_last()).advanced(reports.last())
        }
    }

    /// Starts the setup: the builder is to be opened.
    pub fn begin() -> (setup: Setup)
        ensures
            setup == Setup::Pending(SetupStep::OpenBuilder),
            setup == Setup::run(Seq::empty()),
    {
        Setup::Pending(SetupStep::OpenBuilder)
    }

    /// Records how the pending step went and says what comes next.
    ///
    /// A step that went well is followed by the next one, the last by
    /// [`Setup::Ready`]. A refused step ends the setup with its error. The
    /// pause cannot be refused: `went` is not read for it. A setup that has
    /// ended stays as it is.
    pub fn record(self, went: bool) -> (next: Setup)
        ensures
            next == self.advanced(went),
    {
        match self {
            Setup::Pending(SetupStep::OpenBuilder) => if went {
                Setup::Pending(SetupStep::AssignKeys)
            } else {
                Setup::Failed(MouseError::BuilderInitError)
            },
            Setup::Pending(SetupStep::AssignKeys) => if went {
                Setup::Pending(SetupStep::AssignAxes)
            } else {
                Setup::Failed(MouseError::KeysAssignError)
            },
            Setup::Pending(SetupStep::AssignAxes) => if went {
                Setup::Pending(SetupStep::CreateDevice)
            } else {
                Setup::Failed(MouseError::AxesAssignError)
            },
            Setup::Pending(SetupStep::CreateDevice) => if went {
                Setup::Pending(SetupStep::Settle { millis: SETTLE_MILLIS })
            } else {
                Setup::Failed(MouseError::CreateDeviceError)
            },
            Setup::Pending(SetupStep::Settle { .. }) => Setup::Ready,
            Setup::Ready => Setup::Ready,
            Setup::Failed(error) => Setup::Failed(error),
        }
    }

    /// How the setup ended: `Ok` when the device is ready, the error of the
    /// refused step when one was refused, and `None` while a step is pending.
    pub fn outcome(self) -> (outcome: Option<Result<(), MouseError>>)
        ensures
            outcome == match self {
                Setup::Pending(_) => None::<Result<(), MouseError>>,
                Setup::Ready => Some(Ok(())),
                Setup::Failed(error) => Some(Err(error)),
            },
    {
        match self {
            Setup::Pending(_) => None,
            Setup::Ready => Some(Ok(())),
            Setup::Failed(error) => Some(Err(error)),
        }
    }
}

/// Where a run of reports leaves the setup, read off the reports directly:
/// the first refusal among the first four reports decides, and without one
/// the number of reports does.
pub open spec fn standing(reports: Seq<bool>) -> Setup {
    if reports.len() == 0 {
        Setup::Pending(SetupStep::OpenBuilder)
    } else if !reports[0] {
        Setup::Failed(MouseError::BuilderInitError)
    } else if reports.len() == 1 {
        Setup::Pending(SetupStep::AssignKeys)
    } else if !reports[1] {
        Setup::Failed(MouseError::KeysAssignError)
    } else if reports.len() == 2 {
        Setup::Pending(SetupStep::AssignAxes)
    } else if !reports[2] {
        Setup::Failed(MouseError::AxesAssignError)
    } else if reports.len() == 3 {
        Setup::Pending(SetupStep::CreateDevice)
    } else if !reports[3] {
        Setup::Failed(MouseError::CreateDeviceError)
    } else if reports.len() == 4 {
        Setup::Pending(SetupStep::Settle { millis: SETTLE_MILLIS })
    } else {
        Setup::Ready
    }
}

/// The steps come in one order: builder, buttons, axes, device, pause. The
/// first refused step ends the setup with its own error, whatever the host
/// reports afterwards, and the pause is reached only after all four steps
/// went well.
pub proof fn lemma_run_standing(reports: Seq<bool>)
    ensures
        Setup::run(reports) == standing(reports),
    decreases reports.len(),
{
    if reports.len() > 0 {
        let before = reports.drop_last();
        lemma_run_standing(before);
        assert(forall|i: int| 0 <= i < before.len() ==> before[i] == reports[i]);
    }
}

/// A refusal of the builder gives `BuilderInitError`, of the buttons
/// `KeysAssignError`, of the axes `AxesAssignError`, of the device
/// `CreateDeviceError`: each where every step before it went well.
pub proof fn lemma_refusal_names_its_step(reports: Seq<bool>, refused: int)
    requires
        0 <= refused < reports.len(),
        refused < 4,
        forall|i: int| 0 <= i < refused ==> reports[i],
        !reports[refused],
    ensures
        Setup::run(reports) == Setup::Failed(
            if refused == 0 {
                MouseError::BuilderInitError
            } else if refused == 1 {
                MouseError::KeysAssignError
            } else if refused == 2 {
                MouseError::AxesAssignError
            } else {
                MouseError::CreateDeviceError
            },
        ),
{
    lemma_run_standing(reports);
}

/// The setup is ready exactly when the four steps that can be refused all
/// went well and the pause has been made.
pub proof fn lemma_ready_exactly(reports: Seq<bool>)
    ensures
        Setup::run(reports) == Setup::Ready <==> reports.len() >= 5 && reports[0] && reports[1]
            && reports[2] && reports[3],
{
    lemma_run_standing(reports);
}

/// One pause follows the creation of the device: it is the step that is
/// pending after exactly four steps that went well, it lasts
/// [`SETTLE_MILLIS`], and the report after it makes the setup ready.
pub proof fn lemma_settles_once(reports: Seq<bool>)
    ensures
        Setup::run(reports) is Pending && Setup::run(reports)->Pending_0 is Settle <==> reports.len()
            == 4 && reports[0] && reports[1] && reports[2] && reports[3],
        Setup::run(reports) is Pending && Setup::run(reports)->Pending_0 is Settle ==> Setup::run(
            reports,
        ) == Setup::Pending(SetupStep::Settle { millis: SETTLE_MILLIS }),
        forall|went: bool|
            Setup::run(reports) is Pending && Setup::run(reports)->Pending_0 is Settle
                ==> #[trigger] Setup::run(reports).advanced(went) == Setup::Ready,
{
    lemma_run_standing(reports);
}

/// Nothing is tried again: once the setup has ended, further reports change
/// nothing.
pub proof fn lemma_ended_setup_stays(reports: Seq<bool>, further: Seq<bool>)
    requires
        Setup::run(reports).ended(),
    ensures
        Setup::run(reports + further) == Setup::run(reports),
    decreases further.len(),
{
    if further.len() == 0 {
        assert(reports + further =~= reports);
    } else {
        lemma_ended_setup_stays(reports, further.drop_last());
        assert((reports + further).drop_last() =~= reports + further.drop_last());
        assert((reports + further).last() == further.last());
    }
}

} // verus!
