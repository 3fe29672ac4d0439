use tabby::startup::signal_outcome;
use tabby::startup::stop_spinner;
use tabby::startup::try_run_spinner;
use tabby::startup::SignalOutcome;
use tabby::startup::CHANNEL_CLOSED;
use tabby::startup::STARTING;

#[test]
fn no_indicator_outside_interactive_mode() {
    assert!(try_run_spinner(false).is_none());
}

#[test]
fn indicator_in_interactive_mode() {
    assert!(try_run_spinner(true).is_some());
}

#[test]
fn stopping_without_indicator_is_valid() {
    assert_eq!(stop_spinner(None), SignalOutcome::NothingToStop);
    assert!(!stop_spinner(None).warrants_warning());
}

#[test]
fn stopping_a_waiting_indicator() {
    let mut spinner = try_run_spinner(true).unwrap();
    assert_eq!(stop_spinner(Some(spinner.canceller)), SignalOutcome::Stopped);
    assert_eq!(spinner.stop.try_recv(), Ok(()));
}

#[test]
fn stopping_an_indicator_that_is_gone_warns() {
    let spinner = try_run_spinner(true).unwrap();
    let canceller = spinner.canceller;
    drop(spinner.stop);
    let outcome = stop_spinner(Some(canceller));
    assert_eq!(outcome, SignalOutcome::ReceiverGone);
    assert!(outcome.warrants_warning());
    assert_eq!(outcome.warning(), Some("Spinner channel is closed"));
}

#[test]
fn outcome_of_each_case() {
    assert_eq!(signal_outcome(false, false), SignalOutcome::NothingToStop);
    assert_eq!(signal_outcome(false, true), SignalOutcome::NothingToStop);
    assert_eq!(signal_outcome(true, true), SignalOutcome::Stopped);
    assert_eq!(signal_outcome(true, false), SignalOutcome::ReceiverGone);
}

#[test]
fn only_a_lost_signal_is_worth_a_warning() {
    assert_eq!(SignalOutcome::NothingToStop.warning(), None);
    assert_eq!(SignalOutcome::Stopped.warning(), None);
    assert_eq!(SignalOutcome::ReceiverGone.warning(), Some(CHANNEL_CLOSED));
}

#[test]
fn indicator_text() {
    assert_eq!(STARTING, "Starting...");
    assert_eq!(CHANNEL_CLOSED, "Spinner channel is closed");
}
