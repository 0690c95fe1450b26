//! What the virtual mouse declares when it is registered.
//!
//! The device declares two buttons and two relative axes, and carries a
//! fixed identity so that the operating system takes every run for the same
//! logical mouse.

use crate::input::event::{Axis, Button, InputEvent, BTN_LEFT, BTN_RIGHT, EV_KEY, EV_REL, REL_X, REL_Y};
use vstd::prelude::*;

verus! {

/// Name under which the device is registered.
pub const DEVICE_NAME: &'static str = "KPRS mouse device";

/// Bus type of a USB device.
pub const BUS_USB: u16 = 0x03;

/// Vendor number of the device.
pub const VENDOR: u16 = 0x0001;

/// Product number of the device.
pub const PRODUCT: u16 = 0x0001;

/// Version number of the device.
pub const VERSION: u16 = 0x0001;

/// Time the operating system is given after registration to make the device
/// known to other input consumers, in milliseconds.
pub const SETTLE_MILLIS: u64 = 150;

/// The identity of a device: its bus type and its vendor, product and
/// version numbers.
#[derive(Clone, Copy, Debug, PartialEq, Eq, Structural)]
pub struct Identity {
    pub bus: u16,
    pub vendor: u16,
    pub product: u16,
    pub version: u16,
}

/// Everything that registration tells the operating system about the device.
#[derive(Debug)]
pub struct DeviceProfile {
    pub name: &'static str,
    pub identity: Identity,
    pub buttons: Vec<Button>,
    pub axes: Vec<Axis>,
}

impl DeviceProfile {
    /// Whether this is the profile of the virtual mouse: its name, its
    /// identity, the left and the right button, the horizontal and the
    /// vertical axis, and nothing more.
    pub open spec fn is_mouse(&self) -> bool {
        &&& self.name@ == DEVICE_NAME@
        &&& self.identity == (Identity {
            bus: BUS_USB,
            vendor: VENDOR,
            product: PRODUCT,
            version: VERSION,
        })
        &&& self.buttons@ =~= seq![Button::Left, Button::Right]
        &&& self.axes@ =~= seq![Axis::X, Axis::Y]
    }

    /// Whether a device registered with this profile supports `event`: a
    /// key event of a declared button or a motion along a declared axis.
    pub open spec fn declares(&self, event: InputEvent) -> bool {
        ||| event.kind == EV_KEY && exists|i: int|
            0 <= i < self.buttons@.len() && (#[trigger] self.buttons@[i]).code() == event.code
        ||| event.kind == EV_REL && exists|i: int|
            0 <= i < self.axes@.len() && (#[trigger] self.axes@[i]).code() == event.code
    }

    /// The profile of the virtual mouse.
    pub fn mouse() -> (profile: DeviceProfile)
        ensures
            profile.is_mouse(),
    {
        let mut buttons: Vec<Button> = Vec::new();
        buttons.push(Button::Left);
        buttons.push(Button::Right);
        let mut axes: Vec<Axis> = Vec::new();
        axes.push(Axis::X);
        axes.push(Axis::Y);
        DeviceProfile {
            name: DEVICE_NAME,
            identity: Identity { bus: BUS_USB, vendor: VENDOR, product: PRODUCT, version: VERSION },
            buttons,
            axes,
        }
    }
}

/// The virtual mouse supports exactly the events of its two buttons and its
/// two axes: key events with the code of the left or the right button, and
/// relative motions with the code of the horizontal or the vertical axis.
pub proof fn lemma_mouse_supports_exactly(profile: DeviceProfile, event: InputEvent)
    requires
        profile.is_mouse(),
    ensures
        profile.declares(event) <==> {
            ||| event.kind == EV_KEY && (event.code == BTN_LEFT || event.code == BTN_RIGHT)
            ||| event.kind == EV_REL && (event.code == REL_X || event.code == REL_Y)
        },
{
    assert(profile.buttons@[0] == Button::Left);
    assert(profile.buttons@[1] == Button::Right);
    assert(profile.axes@[0] == Axis::X);
    assert(profile.axes@[1] == Axis::Y);
}

/// Every event that can be encoded for a button or an axis is one the
/// virtual mouse supports: no operation can ask for an undeclared button or
/// axis.
pub proof fn lemma_every_event_supported(profile: DeviceProfile)
    requires
        profile.is_mouse(),
    ensures
        forall|key: Button, value: i32| profile.declares(#[trigger] InputEvent::button(key, value)),
        forall|axis: Axis, value: i32| profile.declares(#[trigger] InputEvent::motion(axis, value)),
{
    assert forall|key: Button, value: i32| profile.declares(
        #[trigger] InputEvent::button(key, value),
    ) by {
        lemma_mouse_supports_exactly(profile, InputEvent::button(key, value));
    }
    assert forall|axis: Axis, value: i32| profile.declares(
        #[trigger] InputEvent::motion(axis, value),
    ) by {
        lemma_mouse_supports_exactly(profile, InputEvent::motion(axis, value));
    }
}

} // verus!
