use afkrip::input::command::{Step, CLICK_HOLD_MILLIS};
use afkrip::input::device::{
    DeviceProfile, Identity, BUS_USB, DEVICE_NAME, PRODUCT, SETTLE_MILLIS, VENDOR, VERSION,
};
use afkrip::input::errors::MouseError;
use afkrip::input::Mouse;
use afkrip::input::event::{
    key_event, move_event, Axis, Button, InputEvent, BTN_LEFT, BTN_RIGHT, EV_KEY, EV_REL, PRESSED,
    RELEASED, REL_X, REL_Y,
};

fn events_of(steps: &[Step]) -> Vec<InputEvent> {
    let mut events = Vec::new();
    for step in steps {
        if let Step::Submit { events: batch, .. } = step {
            events.extend(batch.iter().copied());
        }
    }
    events
}

fn held(trace: &[InputEvent], key: Button) -> bool {
    let mut down = false;
    for event in trace {
        if event.kind == EV_KEY && event.code == key.code() {
            down = event.value != RELEASED;
        }
    }
    down
}

fn single_submission(steps: Vec<Step>) -> (Vec<InputEvent>, MouseError) {
    assert_eq!(steps.len(), 1);
    match steps.into_iter().next() {
        Some(Step::Submit { events, on_reject }) => (events, on_reject),
        other => panic!("{:?}", other),
    }
}

#[test]
fn messages_name_the_failed_operation() {
    assert_eq!(MouseError::BuilderInitError.message(), "Cannot initialize device builder");
    assert_eq!(MouseError::KeysAssignError.message(), "Cannot assign keys to virtual mouse");
    assert_eq!(MouseError::AxesAssignError.message(), "Cannot assign axes to virtual mouse");
    assert_eq!(MouseError::CreateDeviceError.message(), "Cannot create virtual mouse");
    assert_eq!(MouseError::AxisEventEmitError.message(), "Cannot move virtual mouse");
    assert_eq!(MouseError::ButtonEventEmitError.message(), "Cannot click virtual mouse");
}

#[test]
fn messages_are_distinct() {
    let all = [
        MouseError::BuilderInitError,
        MouseError::KeysAssignError,
        MouseError::AxesAssignError,
        MouseError::CreateDeviceError,
        MouseError::ButtonEventEmitError,
        MouseError::AxisEventEmitError,
    ];
    for (i, a) in all.iter().enumerate() {
        for b in &all[i + 1..] {
            assert_ne!(a.message(), b.message());
        }
    }
}

#[test]
fn codes_of_the_input_subsystem() {
    assert_eq!(EV_KEY, 0x01);
    assert_eq!(EV_REL, 0x02);
    assert_eq!(BTN_LEFT, 0x110);
    assert_eq!(BTN_RIGHT, 0x111);
    assert_eq!(REL_X, 0x00);
    assert_eq!(REL_Y, 0x01);
    assert_eq!(BUS_USB, 0x03);
    assert_eq!(Button::Left.code(), 272);
    assert_eq!(Button::Right.code(), 273);
    assert_eq!(Axis::X.code(), 0);
    assert_eq!(Axis::Y.code(), 1);
}

#[test]
fn key_events_carry_type_code_and_value() {
    assert_eq!(key_event(Button::Left, 1), InputEvent { kind: 1, code: 0x110, value: 1 });
    assert_eq!(key_event(Button::Right, 0), InputEvent { kind: 1, code: 0x111, value: 0 });
}

#[test]
fn move_events_carry_type_code_and_value() {
    assert_eq!(move_event(Axis::X, -7), InputEvent { kind: 2, code: 0, value: -7 });
    assert_eq!(move_event(Axis::Y, i32::MAX), InputEvent { kind: 2, code: 1, value: i32::MAX });
}

#[test]
fn mouse_carries_the_profile_of_the_mouse() {
    let mouse = Mouse::new();
    let profile = mouse.profile();
    assert_eq!(profile.name, DeviceProfile::mouse().name);
    assert_eq!(profile.identity, DeviceProfile::mouse().identity);
    assert_eq!(profile.buttons, DeviceProfile::mouse().buttons);
    assert_eq!(profile.axes, DeviceProfile::mouse().axes);
    assert_eq!(profile.buttons.len(), 2);
    assert_eq!(profile.axes.len(), 2);
}

#[test]
fn profile_declares_two_buttons_and_two_axes() {
    let profile = DeviceProfile::mouse();
    assert_eq!(profile.name, "KPRS mouse device");
    assert_eq!(profile.name, DEVICE_NAME);
    assert_eq!(profile.buttons, vec![Button::Left, Button::Right]);
    assert_eq!(profile.axes, vec![Axis::X, Axis::Y]);
}

#[test]
fn profile_identity_is_fixed() {
    let profile = DeviceProfile::mouse();
    assert_eq!(profile.identity, Identity { bus: 3, vendor: 1, product: 1, version: 1 });
    assert_eq!(
        DeviceProfile::mouse().identity,
        Identity { bus: BUS_USB, vendor: VENDOR, product: PRODUCT, version: VERSION }
    );
    assert_eq!(SETTLE_MILLIS, 150);
}

#[test]
fn every_planned_event_is_declared() {
    let mouse = Mouse::new();
    let profile = mouse.profile();
    let mut planned = Vec::new();
    for key in [Button::Left, Button::Right] {
        planned.extend(events_of(&Mouse::new().key_down(key)));
        planned.extend(events_of(&Mouse::new().key_up(key)));
        planned.extend(events_of(&Mouse::new().click(key)));
    }
    planned.extend(events_of(&Mouse::new().pointer_move(12, -12)));
    assert_eq!(planned.len(), 10);
    for event in planned {
        let declared = match event.kind {
            EV_KEY => profile.buttons.iter().any(|button| button.code() == event.code),
            EV_REL => profile.axes.iter().any(|axis| axis.code() == event.code),
            _ => false,
        };
        assert!(declared, "{:?}", event);
    }
}

#[test]
fn key_down_submits_one_press() {
    let (events, on_reject) = single_submission(Mouse::new().key_down(Button::Left));
    assert_eq!(events, vec![InputEvent { kind: EV_KEY, code: BTN_LEFT, value: 1 }]);
    assert_eq!(on_reject, MouseError::ButtonEventEmitError);
    assert_eq!(PRESSED, 1);
}

#[test]
fn key_up_submits_one_release() {
    let (events, on_reject) = single_submission(Mouse::new().key_up(Button::Right));
    assert_eq!(events, vec![InputEvent { kind: EV_KEY, code: BTN_RIGHT, value: 0 }]);
    assert_eq!(on_reject, MouseError::ButtonEventEmitError);
    assert_eq!(RELEASED, 0);
}

#[test]
fn pointer_move_submits_both_axes_in_one_batch() {
    let (events, on_reject) = single_submission(Mouse::new().pointer_move(-3, 4));
    assert_eq!(
        events,
        vec![
            InputEvent { kind: EV_REL, code: REL_X, value: -3 },
            InputEvent { kind: EV_REL, code: REL_Y, value: 4 },
        ]
    );
    assert_eq!(on_reject, MouseError::AxisEventEmitError);
}

#[test]
fn pointer_move_by_nothing_still_submits_both_axes() {
    let (events, _) = single_submission(Mouse::new().pointer_move(0, 0));
    assert_eq!(events, vec![move_event(Axis::X, 0), move_event(Axis::Y, 0)]);
}

#[test]
fn click_is_press_pause_release() {
    let steps = Mouse::new().click(Button::Left);
    assert_eq!(steps.len(), 3);
    match &steps[0] {
        Step::Submit { events, on_reject } => {
            assert_eq!(*events, vec![key_event(Button::Left, 1)]);
            assert_eq!(*on_reject, MouseError::ButtonEventEmitError);
        }
        other => panic!("{:?}", other),
    }
    match &steps[1] {
        Step::Pause { millis } => {
            assert_eq!(*millis, 50);
            assert_eq!(*millis, CLICK_HOLD_MILLIS);
        }
        other => panic!("{:?}", other),
    }
    match &steps[2] {
        Step::Submit { events, on_reject } => {
            assert_eq!(*events, vec![key_event(Button::Left, 0)]);
            assert_eq!(*on_reject, MouseError::ButtonEventEmitError);
        }
        other => panic!("{:?}", other),
    }
}

#[test]
fn left_and_right_click_name_their_buttons() {
    assert_eq!(events_of(&Mouse::new().left_click()), events_of(&Mouse::new().click(Button::Left)));
    assert_eq!(events_of(&Mouse::new().right_click()), events_of(&Mouse::new().click(Button::Right)));
    assert_eq!(
        events_of(&Mouse::new().left_click()),
        vec![key_event(Button::Left, 1), key_event(Button::Left, 0)]
    );
    assert_eq!(
        events_of(&Mouse::new().right_click()),
        vec![key_event(Button::Right, 1), key_event(Button::Right, 0)]
    );
    assert_eq!(Mouse::new().left_click().len(), 3);
    assert_eq!(Mouse::new().right_click().len(), 3);
}

#[test]
fn repeated_clicks_alternate_and_leave_nothing_held() {
    let mut trace = Vec::new();
    for _ in 0..5 {
        trace.extend(events_of(&Mouse::new().click(Button::Left)));
        assert!(!held(&trace, Button::Left));
    }
    assert_eq!(trace.len(), 10);
    for (i, event) in trace.iter().enumerate() {
        let value = if i % 2 == 0 { 1 } else { 0 };
        assert_eq!(*event, key_event(Button::Left, value));
    }
}

#[test]
fn clicks_do_not_touch_the_other_button() {
    let mut trace = events_of(&Mouse::new().key_down(Button::Right));
    assert!(held(&trace, Button::Right));
    trace.extend(events_of(&Mouse::new().click(Button::Left)));
    trace.extend(events_of(&Mouse::new().click(Button::Left)));
    assert!(held(&trace, Button::Right));
    assert!(!held(&trace, Button::Left));
    trace.extend(events_of(&Mouse::new().click(Button::Right)));
    assert!(!held(&trace, Button::Right));
}
