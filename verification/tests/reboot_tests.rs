use tapo_control::device::{Command, DeviceKind, Endpoint, Target};
use tapo_control::error::{CommandError, TransportFailure};
use tapo_control::handle::{outcome_power, DeviceHandle, RebootOutcome, RebootPhase};

fn handle() -> DeviceHandle {
    let endpoint = Endpoint { address: String::from("192.168.0.40"), kind: DeviceKind::Strip };
    DeviceHandle::child(endpoint, 9)
}

#[test]
fn reboot_asks_for_off_first() {
    let seq = handle().begin_reboot();
    assert_eq!(seq.pending_command(), Some(Command::SetPower(Target::Child(9), false)));
    assert!(!seq.on_requested);
}

#[test]
fn off_failure_never_requests_on() {
    let mut seq = handle().begin_reboot();
    let mut on_calls: u32 = 0;

    // Stub transport: the "off" call fails.
    seq.off_completed(Err(CommandError::Transport(TransportFailure::Network)));

    // The sequence is finished: it owes no further command, so the stub's
    // "on" call count stays zero.
    if seq.pending_command() == Some(Command::SetPower(Target::Child(9), true)) {
        on_calls += 1;
    }
    assert_eq!(on_calls, 0);
    assert_eq!(seq.pending_command(), None);
    assert!(!seq.on_requested);
    assert!(matches!(
        seq.phase,
        RebootPhase::Complete(RebootOutcome::FailedOff(CommandError::Transport(
            TransportFailure::Network
        )))
    ));
}

#[test]
fn cancel_during_settle_leaves_device_off_and_never_sends_on() {
    let mut seq = handle().begin_reboot();
    seq.off_completed(Ok(()));
    assert!(matches!(seq.phase, RebootPhase::Settling));

    // The caller cancels during the settle delay.
    seq.cancel();

    assert_eq!(seq.pending_command(), None);
    assert!(!seq.on_requested);
    match &seq.phase {
        RebootPhase::Complete(outcome) => {
            assert!(matches!(outcome, RebootOutcome::Cancelled));
            // The device is reported left powered off.
            assert_eq!(outcome_power(outcome), Some(false));
        }
        other => panic!("expected a completed sequence, got {:?}", other),
    }
}

#[test]
fn uncancelled_reboot_runs_off_settle_on() {
    let mut seq = handle().begin_reboot();
    assert_eq!(seq.pending_command(), Some(Command::SetPower(Target::Child(9), false)));
    seq.off_completed(Ok(()));
    seq.settle_elapsed();
    assert!(seq.on_requested);
    assert_eq!(seq.pending_command(), Some(Command::SetPower(Target::Child(9), true)));
    seq.on_completed(Ok(()));
    match &seq.phase {
        RebootPhase::Complete(outcome) => {
            assert!(matches!(outcome, RebootOutcome::Rebooted));
            assert_eq!(outcome_power(outcome), Some(true));
        }
        other => panic!("expected a completed sequence, got {:?}", other),
    }
}

#[test]
fn on_failure_reports_device_left_off() {
    let mut seq = handle().begin_reboot();
    seq.off_completed(Ok(()));
    seq.settle_elapsed();
    seq.on_completed(Err(CommandError::Transport(TransportFailure::Network)));
    match &seq.phase {
        RebootPhase::Complete(outcome) => {
            assert!(matches!(outcome, RebootOutcome::FailedOn(_)));
            // The partial state is reported, not masked: the device is off.
            assert_eq!(outcome_power(outcome), Some(false));
        }
        other => panic!("expected a completed sequence, got {:?}", other),
    }
}
