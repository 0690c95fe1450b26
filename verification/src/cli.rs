//! The command-line surface: the two options and how their values are read.

use vstd::prelude::*;

pub mod decimal;
pub mod validators;

verus! {

/// The value of the idle-time option when none is given.
pub const DEFAULT_IDLE_TIME: &'static str = "10";

/// The value of the mouse-range option when none is given.
pub const DEFAULT_MOUSE_RANGE: &'static str = "50";

/// The resolved configuration, fixed for the lifetime of the process.
#[derive(Clone, Copy, Debug, PartialEq, Eq, Structural)]
pub struct Args {
    /// Idle threshold in minutes.
    pub idle_time: u64,
    /// Largest distance, in pixels, that one nudge moves the pointer along an axis.
    pub mouse_range: i32,
}

impl Args {
    /// Whether the configuration is one that the validators admit: the
    /// movement range is not negative.
    pub open spec fn valid(self) -> bool {
        self.mouse_range >= 0
    }
}

} // verus!
