//! Session lifecycle and transparent re-authentication.
//!
//! One `SessionManager` owns the single session of one endpoint. The host
//! drives it as a state machine: `ensure_session` says whether a cached token
//! can be used, a fresh authentication must be started, or a refresh already
//! in flight must be awaited — so two overlapping commands against the same
//! endpoint never race to authenticate twice.
//!
//! `CommandExecution` runs one command through that session: on the first
//! `auth_expired` from the transport it invalidates the session, has it
//! refreshed exactly once and resends the command exactly once; a second
//! expiry surfaces as `CommandError::Authentication`.

use vstd::prelude::*;

use crate::device::{Command, Credentials, Endpoint, Payload, TransportReply};
use crate::error::{CommandError, TransportFailure};

verus! {

/// Lifecycle of the session an endpoint holds: never established yet, usable,
/// or rejected by the device and awaiting a refresh.
#[derive(Clone, Copy, PartialEq, Eq, Structural, Debug)]
pub enum Validity {
    Unestablished,
    Valid,
    Expired,
}

/// The authentication state one endpoint currently holds.
#[derive(Clone, Copy, PartialEq, Eq, Structural, Debug)]
pub struct Session {
    pub validity: Validity,
    /// Opaque token handed back by the last successful authentication.
    pub token: Option<u64>,
}

/// Owner of the one session of one endpoint. All session mutation goes
/// through this type; no other component writes to the session directly.
#[derive(Clone, Debug)]
pub struct SessionManager {
    pub endpoint: Endpoint,
    pub credentials: Credentials,
    pub session: Session,
    /// True while an authentication round trip is outstanding.
    pub auth_in_flight: bool,
}

/// What a caller asking for a usable session must do next.
#[derive(Clone, Copy, PartialEq, Eq, Structural, Debug)]
pub enum SessionAction {
    /// The session is valid: use this token, no round trip needed.
    UseToken(u64),
    /// No usable session and no refresh running: perform the authentication
    /// round trip and report back through `finish_auth`.
    StartAuth,
    /// Another caller is already authenticating: await its outcome instead of
    /// starting a duplicate round trip.
    AwaitPending,
}

/// A valid session always carries a token, and while an authentication is in
/// flight the session is not yet valid.
pub open spec fn manager_wf(m: SessionManager) -> bool {
    &&& (m.session.validity == Validity::Valid ==> m.session.token.is_some())
    &&& (m.auth_in_flight ==> m.session.validity != Validity::Valid)
}

/// Mathematical model of `SessionManager::ensure_session`.
pub open spec fn spec_ensure_session(m: SessionManager) -> (SessionManager, SessionAction) {
    if m.auth_in_flight {
        (m, SessionAction::AwaitPending)
    } else if m.session.validity == Validity::Valid {
        (m, SessionAction::UseToken(m.session.token.unwrap()))
    } else {
        (
            SessionManager {
                endpoint: m.endpoint,
                credentials: m.credentials,
                session: m.session,
                auth_in_flight: true,
            },
            SessionAction::StartAuth,
        )
    }
}

/// Mathematical model of `SessionManager::finish_auth`.
pub open spec fn spec_finish_auth(m: SessionManager, token: Option<u64>) -> SessionManager {
    SessionManager {
        endpoint: m.endpoint,
        credentials: m.credentials,
        session: match token {
            Some(t) => Session { validity: Validity::Valid, token: Some(t) },
            None => Session { validity: Validity::Expired, token: m.session.token },
        },
        auth_in_flight: false,
    }
}

/// Mathematical model of `SessionManager::invalidate`.
pub open spec fn spec_invalidate(m: SessionManager) -> SessionManager {
    SessionManager {
        endpoint: m.endpoint,
        credentials: m.credentials,
        session: Session { validity: Validity::Expired, token: m.session.token },
        auth_in_flight: m.auth_in_flight,
    }
}

/// Mathematical model of `SessionManager::mark_indeterminate`.
pub open spec fn spec_mark_indeterminate(m: SessionManager) -> SessionManager {
    SessionManager {
        endpoint: m.endpoint,
        credentials: m.credentials,
        session: Session { validity: Validity::Unestablished, token: m.session.token },
        auth_in_flight: m.auth_in_flight,
    }
}

impl SessionManager {
    /// A fresh manager for one endpoint: no session yet, nothing in flight.
    /// The session is created lazily on first use.
    pub fn new(endpoint: Endpoint, credentials: Credentials) -> (m: SessionManager)
        ensures
            m.endpoint == endpoint,
            m.credentials == credentials,
            m.session == (Session { validity: Validity::Unestablished, token: None::<u64> }),
            !m.auth_in_flight,
            manager_wf(m),
    {
        SessionManager {
            endpoint,
            credentials,
            session: Session { validity: Validity::Unestablished, token: None },
            auth_in_flight: false,
        }
    }

    /// Ask for a usable session. Valid already: hand out the cached token with
    /// no round trip. A refresh in flight: await it, never duplicate it.
    /// Otherwise: exactly this caller starts the authentication.
    pub fn ensure_session(&mut self) -> (a: SessionAction)
        requires
            manager_wf(*old(self)),
        ensures
            manager_wf(*final(self)),
            *final(self) == spec_ensure_session(*old(self)).0,
            a == spec_ensure_session(*old(self)).1,
    {
        if self.auth_in_flight {
            SessionAction::AwaitPending
        } else {
            match self.session.validity {
                Validity::Valid => {
                    match self.session.token {
                        Some(t) => SessionAction::UseToken(t),
                        None => {
                            proof {
                                assert(false);
                            }
                            SessionAction::AwaitPending
                        },
                    }
                },
                _ => {
                    self.auth_in_flight = true;
                    SessionAction::StartAuth
                },
            }
        }
    }

    /// Record the outcome of the authentication round trip started by
    /// `ensure_session`: a token makes the session valid; a rejection leaves
    /// it expired for the caller to surface as an authentication error.
    pub fn finish_auth(&mut self, token: Option<u64>)
        requires
            old(self).auth_in_flight,
        ensures
            manager_wf(*final(self)),
            *final(self) == spec_finish_auth(*old(self), token),
    {
        match token {
            Some(t) => {
                self.session = Session { validity: Validity::Valid, token: Some(t) };
            },
            None => {
                self.session = Session { validity: Validity::Expired, token: self.session.token };
            },
        }
        self.auth_in_flight = false;
    }

    /// The transport reported `auth_expired`: the session is invalidated (not
    /// destroyed) and the next use will refresh it.
    pub fn invalidate(&mut self)
        requires
            manager_wf(*old(self)),
        ensures
            manager_wf(*final(self)),
            *final(self) == spec_invalidate(*old(self)),
    {
        self.session = Session { validity: Validity::Expired, token: self.session.token };
    }

    /// A timed-out round trip leaves the session indeterminate: it is neither
    /// trusted nor condemned, and the next use re-validates it.
    pub fn mark_indeterminate(&mut self)
        requires
            manager_wf(*old(self)),
        ensures
            manager_wf(*final(self)),
            *final(self) == spec_mark_indeterminate(*old(self)),
    {
        self.session = Session { validity: Validity::Unestablished, token: self.session.token };
    }
}

/// Where one command stands on its way through the session.
#[derive(Debug)]
pub enum ExecPhase {
    /// The command is to be sent with the current session.
    FirstAttempt,
    /// The first send hit an expired session; a refresh must complete before
    /// the single permitted resend.
    AwaitingRefresh,
    /// The refresh succeeded; the command is to be resent once.
    SecondAttempt,
    /// Finished, successfully or not. No further transport call follows.
    Complete(Result<Payload, CommandError>),
}

/// One command routed through a session, with the one-shot re-authentication
/// policy: invalidate, refresh once, resend once, then give up.
#[derive(Debug)]
pub struct CommandExecution {
    pub command: Command,
    pub phase: ExecPhase,
}

/// The given execution finished with the given result.
pub open spec fn spec_complete(e: CommandExecution, r: Result<Payload, CommandError>) -> CommandExecution {
    CommandExecution { command: e.command, phase: ExecPhase::Complete(r) }
}

/// One reply handled during an attempt. `first` tells whether a further
/// resend is still permitted.
pub open spec fn spec_reply_outcome(
    e: CommandExecution,
    m: SessionManager,
    reply: TransportReply,
    first: bool,
) -> (CommandExecution, SessionManager) {
    match reply {
        TransportReply::Done(p) => (spec_complete(e, Ok(p)), m),
        TransportReply::NetworkError => (
            spec_complete(e, Err(CommandError::Transport(TransportFailure::Network))),
            m,
        ),
        TransportReply::MalformedResponse => (
            spec_complete(e, Err(CommandError::Transport(TransportFailure::Malformed))),
            m,
        ),
        TransportReply::AuthExpired => if first {
            (
                CommandExecution { command: e.command, phase: ExecPhase::AwaitingRefresh },
                spec_invalidate(m),
            )
        } else {
            (spec_complete(e, Err(CommandError::Authentication)), spec_invalidate(m))
        },
    }
}

/// Mathematical model of `CommandExecution::on_reply`.
pub open spec fn spec_reply_step(
    e: CommandExecution,
    m: SessionManager,
    reply: TransportReply,
) -> (CommandExecution, SessionManager) {
    match e.phase {
        ExecPhase::FirstAttempt => spec_reply_outcome(e, m, reply, true),
        ExecPhase::SecondAttempt => spec_reply_outcome(e, m, reply, false),
        _ => (e, m),
    }
}

/// Mathematical model of `CommandExecution::resume_after_refresh`.
pub open spec fn spec_resume(e: CommandExecution) -> CommandExecution {
    match e.phase {
        ExecPhase::AwaitingRefresh => CommandExecution {
            command: e.command,
            phase: ExecPhase::SecondAttempt,
        },
        _ => e,
    }
}

/// Mathematical model of `CommandExecution::refresh_failed`.
pub open spec fn spec_refresh_failed(e: CommandExecution) -> CommandExecution {
    match e.phase {
        ExecPhase::AwaitingRefresh => spec_complete(e, Err(CommandError::Authentication)),
        _ => e,
    }
}

impl CommandExecution {
    /// Start running one command. The host sends `command` with the token the
    /// session manager hands out, then feeds the reply to `on_reply`.
    pub fn begin(command: Command) -> (e: CommandExecution)
        ensures
            e.command == command,
            e.phase == ExecPhase::FirstAttempt,
    {
        CommandExecution { command, phase: ExecPhase::FirstAttempt }
    }

    /// Handle the transport's reply to the last send. Success and non-auth
    /// failures finish the execution with the payload or the unchanged
    /// transport error. The first expiry invalidates the session and asks for
    /// one refresh; an expiry on the resend finishes with an authentication
    /// error — never a further retry.
    pub fn on_reply(&mut self, manager: &mut SessionManager, reply: TransportReply)
        requires
            old(self).phase == ExecPhase::FirstAttempt || old(self).phase
                == ExecPhase::SecondAttempt,
            manager_wf(*old(manager)),
        ensures
            manager_wf(*final(manager)),
            *final(self) == spec_reply_step(*old(self), *old(manager), reply).0,
            *final(manager) == spec_reply_step(*old(self), *old(manager), reply).1,
    {
        let first: bool = match &self.phase {
            ExecPhase::FirstAttempt => true,
            _ => false,
        };
        match reply {
            TransportReply::Done(p) => {
                self.phase = ExecPhase::Complete(Ok(p));
            },
            TransportReply::NetworkError => {
                self.phase = ExecPhase::Complete(
                    Err(CommandError::Transport(TransportFailure::Network)),
                );
            },
            TransportReply::MalformedResponse => {
                self.phase = ExecPhase::Complete(
                    Err(CommandError::Transport(TransportFailure::Malformed)),
                );
            },
            TransportReply::AuthExpired => {
                manager.invalidate();
                if first {
                    self.phase = ExecPhase::AwaitingRefresh;
                } else {
                    self.phase = ExecPhase::Complete(Err(CommandError::Authentication));
                }
            },
        }
    }

    /// The bounded wait for this attempt's reply ran out. No reply means the
    /// session is neither known invalid nor known valid: it is marked
    /// indeterminate, so the next use re-validates it rather than trusting
    /// stale state, and the command fails as a timed-out transport call.
    pub fn attempt_timed_out(&mut self, manager: &mut SessionManager)
        requires
            old(self).phase == ExecPhase::FirstAttempt || old(self).phase
                == ExecPhase::SecondAttempt,
            manager_wf(*old(manager)),
        ensures
            manager_wf(*final(manager)),
            *final(manager) == spec_mark_indeterminate(*old(manager)),
            *final(self) == spec_complete(
                *old(self),
                Err(CommandError::Transport(TransportFailure::Timeout)),
            ),
    {
        manager.mark_indeterminate();
        self.phase = ExecPhase::Complete(
            Err(CommandError::Transport(TransportFailure::Timeout)),
        );
    }

    /// The refresh the first expiry asked for has produced a valid session:
    /// resend the command, exactly once.
    pub fn resume_after_refresh(&mut self, manager: &SessionManager)
        requires
            old(self).phase == ExecPhase::AwaitingRefresh,
            manager_wf(*manager),
            manager.session.validity == Validity::Valid,
        ensures
            *final(self) == spec_resume(*old(self)),
    {
        self.phase = ExecPhase::SecondAttempt;
    }

    /// The refresh itself was rejected: the command fails as an
    /// authentication error, with no further attempt.
    pub fn refresh_failed(&mut self)
        requires
            old(self).phase == ExecPhase::AwaitingRefresh,
        ensures
            *final(self) == spec_refresh_failed(*old(self)),
    {
        self.phase = ExecPhase::Complete(Err(CommandError::Authentication));
    }

    /// Hand the finished execution's result to the caller.
    pub fn into_result(self) -> (r: Result<Payload, CommandError>)
        requires
            self.phase matches ExecPhase::Complete(_),
        ensures
            self.phase == ExecPhase::Complete(r),
    {
        match self.phase {
            ExecPhase::Complete(r) => r,
            _ => {
                proof {
                    assert(false);
                }
                Err(CommandError::Authentication)
            },
        }
    }
}

/// Overlapping session requests cause one authentication round trip, not two:
/// if the first request starts an authentication, a second request arriving
/// before it finishes is told to await it, and changes nothing.
pub proof fn lemma_single_auth_round_trip(m: SessionManager)
    requires
        manager_wf(m),
    ensures
        spec_ensure_session(m).1 == SessionAction::StartAuth ==> spec_ensure_session(
            spec_ensure_session(m).0,
        ).1 == SessionAction::AwaitPending,
        !(spec_ensure_session(m).1 == SessionAction::StartAuth && spec_ensure_session(
            spec_ensure_session(m).0,
        ).1 == SessionAction::StartAuth),
        spec_ensure_session(spec_ensure_session(m).0).0 == spec_ensure_session(m).0,
{
}

/// A valid session causes no round trip: asking for it hands out the cached
/// token and changes nothing, and a fresh authentication immediately makes
/// its token the one handed out.
pub proof fn lemma_valid_session_is_reused(m: SessionManager, t: u64)
    requires
        manager_wf(m),
    ensures
        m.session.validity == Validity::Valid && !m.auth_in_flight ==> spec_ensure_session(m)
            == (m, SessionAction::UseToken(m.session.token.unwrap())),
        spec_ensure_session(m).1 == SessionAction::StartAuth ==> spec_ensure_session(
            spec_finish_auth(spec_ensure_session(m).0, Some(t)),
        ).1 == SessionAction::UseToken(t),
{
}

/// One expiry, then success: the session is invalidated, refreshed by exactly
/// one authentication, the command is resent exactly once, and the caller
/// receives the success payload of the resend.
pub proof fn lemma_expire_once_then_succeed(
    e: CommandExecution,
    m: SessionManager,
    p: Payload,
    t: u64,
)
    requires
        e.phase == ExecPhase::FirstAttempt,
        manager_wf(m),
        !m.auth_in_flight,
    ensures
        ({
            let (e1, m1) = spec_reply_step(e, m, TransportReply::AuthExpired);
            let (m2, a2) = spec_ensure_session(m1);
            let m3 = spec_finish_auth(m2, Some(t));
            let e2 = spec_resume(e1);
            let (e3, m4) = spec_reply_step(e2, m3, TransportReply::Done(p));
            &&& e1.phase == ExecPhase::AwaitingRefresh
            &&& m1.session.validity == Validity::Expired
            &&& a2 == SessionAction::StartAuth
            &&& m3.session.validity == Validity::Valid
            &&& e2.phase == ExecPhase::SecondAttempt
            &&& e3.phase == ExecPhase::Complete(Ok(p))
            &&& e3.command == e.command
            &&& m4 == m3
        }),
{
}

/// Two expiries in a row: after the single permitted resend also comes back
/// `auth_expired`, the caller receives an authentication error — the manager
/// never retries a second time.
pub proof fn lemma_expire_twice_is_auth_error(
    e: CommandExecution,
    m: SessionManager,
    t: u64,
)
    requires
        e.phase == ExecPhase::FirstAttempt,
        manager_wf(m),
        !m.auth_in_flight,
    ensures
        ({
            let (e1, m1) = spec_reply_step(e, m, TransportReply::AuthExpired);
            let (m2, a2) = spec_ensure_session(m1);
            let m3 = spec_finish_auth(m2, Some(t));
            let e2 = spec_resume(e1);
            let (e3, m4) = spec_reply_step(e2, m3, TransportReply::AuthExpired);
            &&& e3.phase == ExecPhase::Complete(Err(CommandError::Authentication))
            &&& m4.session.validity == Validity::Expired
        }),
{
}

} // verus!
