//! The session and reboot machines driven end to end against a scripted
//! transport stub that counts calls.

use tapo_control::device::{
    Command, Credentials, DeviceKind, Endpoint, Payload, Target, TransportReply,
};
use tapo_control::error::CommandError;
use tapo_control::handle::{DeviceHandle, RebootOutcome, RebootPhase};
use tapo_control::session::{CommandExecution, ExecPhase, SessionAction, SessionManager};

/// Scripted stand-in for the device channel: hands out the next scripted
/// reply per send and counts every call.
struct StubTransport {
    auth_calls: u32,
    replies: Vec<TransportReply>,
    sent: Vec<Command>,
}

impl StubTransport {
    fn new(replies: Vec<TransportReply>) -> StubTransport {
        StubTransport { auth_calls: 0, replies, sent: Vec::new() }
    }

    fn authenticate(&mut self) -> Option<u64> {
        self.auth_calls += 1;
        Some(u64::from(self.auth_calls))
    }

    fn send(&mut self, command: &Command) -> TransportReply {
        self.sent.push(*command);
        self.replies.remove(0)
    }

    fn on_commands_sent(&self) -> usize {
        self.sent
            .iter()
            .filter(|c| matches!(c, Command::SetPower(_, true)))
            .count()
    }
}

fn manager() -> SessionManager {
    SessionManager::new(
        Endpoint { address: String::from("192.168.0.50"), kind: DeviceKind::Strip },
        Credentials { username: String::from("user@example.com"), secret: String::from("secret") },
    )
}

/// The loop a host runs: obtain a token, send, feed the reply back, refresh
/// once if asked to.
fn run_command(
    manager: &mut SessionManager,
    stub: &mut StubTransport,
    command: Command,
) -> Result<Payload, CommandError> {
    let mut exec = CommandExecution::begin(command);
    loop {
        loop {
            match manager.ensure_session() {
                SessionAction::UseToken(_) => break,
                SessionAction::StartAuth => {
                    let token = stub.authenticate();
                    manager.finish_auth(token);
                }
                SessionAction::AwaitPending => panic!("no concurrent caller in this test"),
            }
        }
        let reply = stub.send(&exec.command);
        exec.on_reply(manager, reply);
        match &exec.phase {
            ExecPhase::Complete(_) => return exec.into_result(),
            ExecPhase::AwaitingRefresh => loop {
                match manager.ensure_session() {
                    SessionAction::UseToken(_) => {
                        exec.resume_after_refresh(manager);
                        break;
                    }
                    SessionAction::StartAuth => {
                        let token = stub.authenticate();
                        manager.finish_auth(token);
                    }
                    SessionAction::AwaitPending => panic!("no concurrent caller in this test"),
                }
            },
            _ => {}
        }
    }
}

#[test]
fn expiry_once_retries_once_and_returns_payload() {
    let mut m = manager();
    let mut stub = StubTransport::new(vec![
        TransportReply::AuthExpired,
        TransportReply::Done(Payload::Ack),
    ]);
    let r = run_command(&mut m, &mut stub, Command::SetPower(Target::Child(2), true));
    assert!(matches!(r, Ok(Payload::Ack)));
    // One initial authentication, one refresh, two sends: exactly one retry.
    assert_eq!(stub.auth_calls, 2);
    assert_eq!(stub.sent.len(), 2);
}

#[test]
fn expiry_twice_surfaces_authentication_error() {
    let mut m = manager();
    let mut stub = StubTransport::new(vec![
        TransportReply::AuthExpired,
        TransportReply::AuthExpired,
    ]);
    let r = run_command(&mut m, &mut stub, Command::QueryInfo(Target::Device));
    assert!(matches!(r, Err(CommandError::Authentication)));
    // The command was sent twice and never a third time.
    assert_eq!(stub.sent.len(), 2);
}

#[test]
fn session_is_shared_across_commands_without_new_auth() {
    let mut m = manager();
    let mut stub = StubTransport::new(vec![
        TransportReply::Done(Payload::Ack),
        TransportReply::Done(Payload::Ack),
    ]);
    let first = run_command(&mut m, &mut stub, Command::SetPower(Target::Device, true));
    let second = run_command(&mut m, &mut stub, Command::SetPower(Target::Device, false));
    assert!(first.is_ok() && second.is_ok());
    // The second command reuses the cached session.
    assert_eq!(stub.auth_calls, 1);
}

#[test]
fn reboot_whose_off_fails_sends_no_on_command() {
    let mut m = manager();
    let mut stub = StubTransport::new(vec![TransportReply::NetworkError]);
    let handle = DeviceHandle::child(
        Endpoint { address: String::from("192.168.0.50"), kind: DeviceKind::Strip },
        2,
    );

    let mut seq = handle.begin_reboot();
    let off = seq.pending_command().expect("a reboot owes the off command first");
    let result = run_command(&mut m, &mut stub, off).map(|_| ());
    seq.off_completed(result);

    assert!(matches!(
        seq.phase,
        RebootPhase::Complete(RebootOutcome::FailedOff(_))
    ));
    assert_eq!(seq.pending_command(), None);
    assert_eq!(stub.on_commands_sent(), 0);
}

#[test]
fn reboot_cancelled_in_settle_sends_no_on_command() {
    let mut m = manager();
    let mut stub = StubTransport::new(vec![TransportReply::Done(Payload::Ack)]);
    let handle = DeviceHandle::child(
        Endpoint { address: String::from("192.168.0.50"), kind: DeviceKind::Strip },
        2,
    );

    let mut seq = handle.begin_reboot();
    let off = seq.pending_command().expect("a reboot owes the off command first");
    let result = run_command(&mut m, &mut stub, off).map(|_| ());
    seq.off_completed(result);
    assert!(matches!(seq.phase, RebootPhase::Settling));

    // The caller cancels during the settle delay.
    seq.cancel();

    assert!(matches!(
        seq.phase,
        RebootPhase::Complete(RebootOutcome::Cancelled)
    ));
    assert_eq!(stub.on_commands_sent(), 0);
    // Only the off command ever went out: the device is left powered off.
    assert_eq!(stub.sent, vec![Command::SetPower(Target::Child(2), false)]);
}
