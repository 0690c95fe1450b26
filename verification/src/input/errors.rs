//! Errors of the virtual pointer device.

use vstd::prelude::*;

verus! {

/// Everything that can go wrong with the virtual mouse.
///
/// The first four variants are setup errors: they arise while the device is
/// being registered and are not retried. The last two are emission errors:
/// they arise when the operating system rejects a submitted batch of events
/// and leave the device usable for a later attempt.
#[derive(Clone, Copy, Debug, PartialEq, Eq, Structural)]
pub enum MouseError {
    BuilderInitError,
    KeysAssignError,
    AxesAssignError,
    CreateDeviceError,
    ButtonEventEmitError,
    AxisEventEmitError,
}

impl MouseError {
    /// The text of [`MouseError::message`], as a sequence of characters.
    pub open spec fn message_text(self) -> Seq<char> {
        match self {
            MouseError::BuilderInitError => "Cannot initialize device builder"@,
            MouseError::KeysAssignError => "Cannot assign keys to virtual mouse"@,
            MouseError::AxesAssignError => "Cannot assign axes to virtual mouse"@,
            MouseError::CreateDeviceError => "Cannot create virtual mouse"@,
            MouseError::AxisEventEmitError => "Cannot move virtual mouse"@,
            MouseError::ButtonEventEmitError => "Cannot click virtual mouse"@,
        }
    }

    /// A one-line, human-readable description naming the failed operation.
    pub fn message(&self) -> (text: &'static str)
        ensures
            text@ == self.message_text(),
    {
        match self {
            MouseError::BuilderInitError => "Cannot initialize device builder",
            MouseError::KeysAssignError => "Cannot assign keys to virtual mouse",
            MouseError::AxesAssignError => "Cannot assign axes to virtual mouse",
            MouseError::CreateDeviceError => "Cannot create virtual mouse",
            MouseError::AxisEventEmitError => "Cannot move virtual mouse",
            MouseError::ButtonEventEmitError => "Cannot click virtual mouse",
        }
    }
}

} // verus!
