use hvaclogger::blinkie::{
    BlinkState, Blinker, BlinkerController, ConcreteBlinker, ExampleConcreteBlinker, ERROR_OFF,
    ERROR_ON, NOTYET_OFF, NOTYET_ON, SUCCESS_OFF, SUCCESS_ON,
};

#[test]
fn cycle() {
    let concrete_blinker = ExampleConcreteBlinker::new();
    let mut b = Blinker::new(concrete_blinker);
    assert_eq!(b.wait_ms(), NOTYET_OFF);
    b.next();
    assert_eq!(b.wait_ms(), NOTYET_ON);
    b.next();
    assert_eq!(b.wait_ms(), NOTYET_OFF);

    let b = b.start_busy();

    let mut b = b.start_trouble();
    assert_eq!(b.wait_ms(), NOTYET_OFF);
    b.next();
    assert_eq!(b.wait_ms(), NOTYET_ON);
    b.next();
    assert_eq!(b.wait_ms(), NOTYET_OFF);
    b.next();
    assert_eq!(b.wait_ms(), NOTYET_ON);

    let b = b.start_busy();

    let mut b = b.start_success();
    assert_eq!(b.wait_ms(), SUCCESS_OFF);
    b.next();
    assert_eq!(b.wait_ms(), SUCCESS_ON);
    b.next();
    assert_eq!(b.wait_ms(), SUCCESS_OFF);
    b.next();
    assert_eq!(b.wait_ms(), SUCCESS_ON);

    let b = b.start_busy();

    let mut b = b.start_trouble();
    assert_eq!(b.wait_ms(), ERROR_OFF);
    b.next();
    assert_eq!(b.wait_ms(), ERROR_ON);
    b.next();
    assert_eq!(b.wait_ms(), ERROR_OFF);
}

#[test]
fn cadence_values() {
    assert_eq!((NOTYET_ON, NOTYET_OFF), (1000, 1000));
    assert_eq!((SUCCESS_ON, SUCCESS_OFF), (100, 10000));
    assert_eq!((ERROR_ON, ERROR_OFF), (500, 500));
}

#[test]
fn initial_wait_of_each_state() {
    let b = BlinkerController::enter_trouble(ExampleConcreteBlinker::new(), false);
    assert_eq!(b.state(), BlinkState::NeverSucceeded);
    assert_eq!(b.wait_ms(), 1000);
    let b = BlinkerController::enter_trouble(ExampleConcreteBlinker::new(), true);
    assert_eq!(b.state(), BlinkState::TroubleAfterSuccess);
    assert_eq!(b.wait_ms(), 500);
    let b = BlinkerController::enter_success(ExampleConcreteBlinker::new());
    assert_eq!(b.state(), BlinkState::Success);
    assert_eq!(b.wait_ms(), 10000);
    let b = BlinkerController::enter_busy(ExampleConcreteBlinker::new(), false);
    assert_eq!(b.state(), BlinkState::Busy { ever_succeeded: false });
    let b = BlinkerController::enter_busy(ExampleConcreteBlinker::new(), true);
    assert_eq!(b.state(), BlinkState::Busy { ever_succeeded: true });
}

#[test]
fn new_blinker_starts_never_succeeded() {
    let b = Blinker::new(ExampleConcreteBlinker::new());
    assert_eq!(b.state(), BlinkState::NeverSucceeded);
    assert_eq!(b.wait_ms(), NOTYET_OFF);
}

#[test]
fn full_trace_with_states() {
    let mut b = Blinker::new(ExampleConcreteBlinker::new());
    assert_eq!(b.wait_ms(), 1000);
    b.next();
    assert_eq!(b.wait_ms(), 1000);
    b.next();
    assert_eq!(b.wait_ms(), 1000);
    let b = b.start_busy();
    assert_eq!(b.state(), BlinkState::Busy { ever_succeeded: false });
    let b = b.start_trouble();
    assert_eq!(b.state(), BlinkState::NeverSucceeded);
    assert_eq!(b.wait_ms(), 1000);
    let b = b.start_busy();
    let mut b = b.start_success();
    assert_eq!(b.state(), BlinkState::Success);
    assert_eq!(b.wait_ms(), 10000);
    b.next();
    assert_eq!(b.wait_ms(), 100);
    b.next();
    assert_eq!(b.wait_ms(), 10000);
    let b = b.start_busy();
    assert_eq!(b.state(), BlinkState::Busy { ever_succeeded: true });
    let mut b = b.start_trouble();
    assert_eq!(b.state(), BlinkState::TroubleAfterSuccess);
    assert_eq!(b.wait_ms(), 500);
    b.next();
    assert_eq!(b.wait_ms(), 500);
    b.next();
    assert_eq!(b.wait_ms(), 500);
}

#[test]
fn example_blinker_starts_off() {
    let cb = ExampleConcreteBlinker::new();
    assert!(!cb.is_on());
}

#[test]
fn example_blinker_toggle_flips_and_reports_previous() {
    let mut cb = ExampleConcreteBlinker::new();
    assert_eq!(cb.toggle(None), false);
    assert!(cb.is_on());
    assert_eq!(cb.toggle(None), true);
    assert!(!cb.is_on());
}

#[test]
fn example_blinker_toggle_forces_state() {
    let mut cb = ExampleConcreteBlinker::new();
    assert_eq!(cb.toggle(Some(true)), false);
    assert!(cb.is_on());
    assert_eq!(cb.toggle(Some(true)), true);
    assert!(cb.is_on());
    assert_eq!(cb.toggle(Some(false)), true);
    assert!(!cb.is_on());
    assert_eq!(cb.toggle(Some(false)), false);
    assert!(!cb.is_on());
}

#[test]
fn example_blinker_init_turns_off() {
    let mut cb = ExampleConcreteBlinker::new();
    cb.toggle(Some(true));
    cb.init();
    assert!(!cb.is_on());
}
