use afkrip::input::device::SETTLE_MILLIS;
use afkrip::input::errors::MouseError;
use afkrip::input::setup::{Setup, SetupStep};

/// Runs the setup against a host that reports `reports`, one report for
/// each step, and returns the steps that were performed and where the setup
/// stood then.
fn run(reports: &[bool]) -> (Vec<SetupStep>, Setup) {
    let mut setup = Setup::begin();
    let mut performed = Vec::new();
    for went in reports {
        if let Setup::Pending(step) = setup {
            performed.push(step);
        }
        setup = setup.record(*went);
    }
    (performed, setup)
}

#[test]
fn setup_begins_with_the_builder() {
    assert_eq!(Setup::begin(), Setup::Pending(SetupStep::OpenBuilder));
    assert_eq!(Setup::begin().outcome(), None);
}

#[test]
fn steps_come_in_one_order() {
    let (performed, setup) = run(&[true, true, true, true, true]);
    assert_eq!(
        performed,
        vec![
            SetupStep::OpenBuilder,
            SetupStep::AssignKeys,
            SetupStep::AssignAxes,
            SetupStep::CreateDevice,
            SetupStep::Settle { millis: 150 },
        ]
    );
    assert_eq!(setup, Setup::Ready);
    assert_eq!(setup.outcome(), Some(Ok(())));
}

#[test]
fn refused_builder_is_a_builder_init_error() {
    let (performed, setup) = run(&[false]);
    assert_eq!(performed, vec![SetupStep::OpenBuilder]);
    assert_eq!(setup, Setup::Failed(MouseError::BuilderInitError));
    assert_eq!(setup.outcome(), Some(Err(MouseError::BuilderInitError)));
}

#[test]
fn refused_keys_are_a_keys_assign_error() {
    let (performed, setup) = run(&[true, false]);
    assert_eq!(performed, vec![SetupStep::OpenBuilder, SetupStep::AssignKeys]);
    assert_eq!(setup, Setup::Failed(MouseError::KeysAssignError));
}

#[test]
fn refused_axes_are_an_axes_assign_error() {
    let (performed, setup) = run(&[true, true, false]);
    assert_eq!(performed.len(), 3);
    assert_eq!(performed[2], SetupStep::AssignAxes);
    assert_eq!(setup, Setup::Failed(MouseError::AxesAssignError));
}

#[test]
fn refused_device_is_a_create_device_error() {
    let (performed, setup) = run(&[true, true, true, false]);
    assert_eq!(performed.len(), 4);
    assert_eq!(performed[3], SetupStep::CreateDevice);
    assert_eq!(setup, Setup::Failed(MouseError::CreateDeviceError));
    assert_eq!(setup.outcome(), Some(Err(MouseError::CreateDeviceError)));
}

#[test]
fn nothing_is_tried_again_after_a_refusal() {
    for refused in 0..4 {
        let mut reports = vec![true; 8];
        reports[refused] = false;
        let (performed, setup) = run(&reports);
        assert_eq!(performed.len(), refused + 1);
        assert!(matches!(setup, Setup::Failed(_)));
        let (_, at_once) = run(&reports[..refused + 1]);
        assert_eq!(setup, at_once);
    }
}

#[test]
fn one_pause_follows_the_creation_of_the_device() {
    let (_, created) = run(&[true, true, true, true]);
    assert_eq!(created, Setup::Pending(SetupStep::Settle { millis: SETTLE_MILLIS }));
    assert_eq!(SETTLE_MILLIS, 150);
    assert_eq!(created.outcome(), None);
    assert_eq!(created.record(true), Setup::Ready);
    let (performed, _) = run(&[true; 9]);
    let pauses = performed.iter().filter(|step| matches!(step, SetupStep::Settle { .. })).count();
    assert_eq!(pauses, 1);
}

#[test]
fn the_pause_cannot_be_refused() {
    let (_, created) = run(&[true, true, true, true]);
    assert_eq!(created.record(false), Setup::Ready);
}

#[test]
fn no_pause_without_a_device() {
    for reports in [vec![false], vec![true, false], vec![true, true, false], vec![true, true, true, false]] {
        let mut longer = reports.clone();
        longer.extend([true, true, true]);
        let (performed, _) = run(&longer);
        assert!(performed.iter().all(|step| !matches!(step, SetupStep::Settle { .. })));
    }
}

#[test]
fn ended_setup_stays_as_it_is() {
    assert_eq!(Setup::Ready.record(true), Setup::Ready);
    assert_eq!(Setup::Ready.record(false), Setup::Ready);
    let failed = Setup::Failed(MouseError::KeysAssignError);
    assert_eq!(failed.record(true), failed);
    assert_eq!(failed.record(false), failed);
}

#[test]
fn setup_is_pending_until_it_has_ended() {
    let mut setup = Setup::begin();
    for _ in 0..5 {
        assert_eq!(setup.outcome(), None);
        setup = setup.record(true);
    }
    assert_eq!(setup.outcome(), Some(Ok(())));
}
