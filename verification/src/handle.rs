//! Typed operations against one device or one child: power, info, and the
//! reboot sequence.
//!
//! A reboot is "off, settle, on". The host performs each transport call and
//! the settle delay; the sequence machine here decides what may happen next.
//! If the "off" step fails, "on" is never requested and the failure is
//! surfaced as-is; a cancellation observed during the settle delay stops the
//! sequence with the device left powered off, and "on" is never requested
//! either.

use vstd::prelude::*;

use crate::device::{Command, Endpoint, Target};
use crate::error::CommandError;

verus! {

/// Handle scoped to one addressable unit behind one physical connection:
/// the device itself, or one child by stable id.
#[derive(Clone, Debug)]
pub struct DeviceHandle {
    pub endpoint: Endpoint,
    pub target: Target,
}

/// How one reboot sequence ended.
#[derive(Debug)]
pub enum RebootOutcome {
    /// Off, settle and on all completed; the device is powered on.
    Rebooted,
    /// Cancelled during the settle delay; the device is powered off and the
    /// "on" command was never sent.
    Cancelled,
    /// The "off" step failed; its error is surfaced unchanged and the "on"
    /// command was never sent.
    FailedOff(CommandError),
    /// The "on" step failed after a successful "off": the device is powered
    /// off, which is reported, not masked.
    FailedOn(CommandError),
}

/// Where one reboot sequence stands.
#[derive(Debug)]
pub enum RebootPhase {
    /// The "off" command is to be sent (or is in flight).
    SendingOff,
    /// "Off" succeeded; the settle delay is running. Cancellation is
    /// observed here, before the next suspension point.
    Settling,
    /// The delay elapsed uncancelled; the "on" command is to be sent.
    SendingOn,
    /// Finished. No further command follows.
    Complete(RebootOutcome),
}

/// One reboot of one target, driven step by step by the host.
#[derive(Debug)]
pub struct RebootSequence {
    pub target: Target,
    pub phase: RebootPhase,
    /// Whether this sequence has ever asked for the "on" command.
    pub on_requested: bool,
}

/// Mathematical model of `RebootSequence::begin`.
pub open spec fn spec_reboot_begin(target: Target) -> RebootSequence {
    RebootSequence { target, phase: RebootPhase::SendingOff, on_requested: false }
}

/// Mathematical model of `RebootSequence::pending_command`: the transport
/// call the host owes the sequence, if any.
pub open spec fn spec_pending_command(r: RebootSequence) -> Option<Command> {
    match r.phase {
        RebootPhase::SendingOff => Some(Command::SetPower(r.target, false)),
        RebootPhase::SendingOn => Some(Command::SetPower(r.target, true)),
        _ => None,
    }
}

/// Mathematical model of `RebootSequence::off_completed`.
pub open spec fn spec_off_completed(
    r: RebootSequence,
    result: Result<(), CommandError>,
) -> RebootSequence {
    match r.phase {
        RebootPhase::SendingOff => match result {
            Ok(_) => RebootSequence {
                target: r.target,
                phase: RebootPhase::Settling,
                on_requested: r.on_requested,
            },
            Err(e) => RebootSequence {
                target: r.target,
                phase: RebootPhase::Complete(RebootOutcome::FailedOff(e)),
                on_requested: r.on_requested,
            },
        },
        _ => r,
    }
}

/// Mathematical model of `RebootSequence::settle_elapsed`.
pub open spec fn spec_settle_elapsed(r: RebootSequence) -> RebootSequence {
    match r.phase {
        RebootPhase::Settling => RebootSequence {
            target: r.target,
            phase: RebootPhase::SendingOn,
            on_requested: true,
        },
        _ => r,
    }
}

/// Mathematical model of `RebootSequence::cancel`.
pub open spec fn spec_cancel(r: RebootSequence) -> RebootSequence {
    match r.phase {
        RebootPhase::Settling => RebootSequence {
            target: r.target,
            phase: RebootPhase::Complete(RebootOutcome::Cancelled),
            on_requested: r.on_requested,
        },
        _ => r,
    }
}

/// Mathematical model of `RebootSequence::on_completed`.
pub open spec fn spec_on_completed(
    r: RebootSequence,
    result: Result<(), CommandError>,
) -> RebootSequence {
    match r.phase {
        RebootPhase::SendingOn => match result {
            Ok(_) => RebootSequence {
                target: r.target,
                phase: RebootPhase::Complete(RebootOutcome::Rebooted),
                on_requested: r.on_requested,
            },
            Err(e) => RebootSequence {
                target: r.target,
                phase: RebootPhase::Complete(RebootOutcome::FailedOn(e)),
                on_requested: r.on_requested,
            },
        },
        _ => r,
    }
}

/// The power state each outcome leaves the device in, where known: rebooted
/// means on; cancelled or failed on the "on" step means off; a failed "off"
/// leaves whatever state the device was in.
pub open spec fn spec_outcome_power(o: RebootOutcome) -> Option<bool> {
    match o {
        RebootOutcome::Rebooted => Some(true),
        RebootOutcome::Cancelled => Some(false),
        RebootOutcome::FailedOff(_) => None,
        RebootOutcome::FailedOn(_) => Some(false),
    }
}

impl DeviceHandle {
    /// Handle for the device at the endpoint itself.
    pub fn device(endpoint: Endpoint) -> (h: DeviceHandle)
        ensures
            h.endpoint == endpoint,
            h.target == Target::Device,
    {
        DeviceHandle { endpoint, target: Target::Device }
    }

    /// Handle scoped to one child by its stable id.
    pub fn child(endpoint: Endpoint, id: u64) -> (h: DeviceHandle)
        ensures
            h.endpoint == endpoint,
            h.target == Target::Child(id),
    {
        DeviceHandle { endpoint, target: Target::Child(id) }
    }

    /// The transport command that turns this handle's target on or off.
    pub fn power_command(&self, on: bool) -> (c: Command)
        ensures
            c == Command::SetPower(self.target, on),
    {
        Command::SetPower(self.target, on)
    }

    /// The transport command that queries this handle's target without
    /// mutating device state.
    pub fn info_command(&self) -> (c: Command)
        ensures
            c == Command::QueryInfo(self.target),
    {
        Command::QueryInfo(self.target)
    }

    /// Start a reboot of this handle's target: first action is the "off"
    /// command.
    pub fn begin_reboot(&self) -> (r: RebootSequence)
        ensures
            r == spec_reboot_begin(self.target),
    {
        RebootSequence {
            target: self.target,
            phase: RebootPhase::SendingOff,
            on_requested: false,
        }
    }
}

impl RebootSequence {
    /// The transport call the host owes this sequence next, if any.
    pub fn pending_command(&self) -> (c: Option<Command>)
        ensures
            c == spec_pending_command(*self),
    {
        match &self.phase {
            RebootPhase::SendingOff => Some(Command::SetPower(self.target, false)),
            RebootPhase::SendingOn => Some(Command::SetPower(self.target, true)),
            _ => None,
        }
    }

    /// Record the outcome of the "off" command: success starts the settle
    /// delay; failure finishes the sequence with that error unchanged, and
    /// "on" is never requested.
    pub fn off_completed(&mut self, result: Result<(), CommandError>)
        requires
            old(self).phase matches RebootPhase::SendingOff,
        ensures
            *final(self) == spec_off_completed(*old(self), result),
    {
        match result {
            Ok(_) => {
                self.phase = RebootPhase::Settling;
            },
            Err(e) => {
                self.phase = RebootPhase::Complete(RebootOutcome::FailedOff(e));
            },
        }
    }

    /// The settle delay ran out without a cancellation: the "on" command is
    /// now owed. This is the only step that ever requests "on".
    pub fn settle_elapsed(&mut self)
        requires
            old(self).phase matches RebootPhase::Settling,
        ensures
            *final(self) == spec_settle_elapsed(*old(self)),
    {
        self.phase = RebootPhase::SendingOn;
        self.on_requested = true;
    }

    /// A caller cancelled during the settle delay: the sequence finishes with
    /// the device left powered off, and "on" is never requested.
    pub fn cancel(&mut self)
        requires
            old(self).phase matches RebootPhase::Settling,
        ensures
            *final(self) == spec_cancel(*old(self)),
    {
        self.phase = RebootPhase::Complete(RebootOutcome::Cancelled);
    }

    /// Record the outcome of the "on" command, finishing the sequence either
    /// way; a failure reports the device still powered off.
    pub fn on_completed(&mut self, result: Result<(), CommandError>)
        requires
            old(self).phase matches RebootPhase::SendingOn,
        ensures
            *final(self) == spec_on_completed(*old(self), result),
    {
        match result {
            Ok(_) => {
                self.phase = RebootPhase::Complete(RebootOutcome::Rebooted);
            },
            Err(e) => {
                self.phase = RebootPhase::Complete(RebootOutcome::FailedOn(e));
            },
        }
    }
}

/// The power state an outcome reports, per `spec_outcome_power`.
pub fn outcome_power(o: &RebootOutcome) -> (p: Option<bool>)
    ensures
        p == spec_outcome_power(*o),
{
    match o {
        RebootOutcome::Rebooted => Some(true),
        RebootOutcome::Cancelled => Some(false),
        RebootOutcome::FailedOff(_) => None,
        RebootOutcome::FailedOn(_) => Some(false),
    }
}

/// Off-then-on is short-circuited on failure: when the "off" step fails, the
/// sequence completes with that failure surfaced unchanged, the "on" command
/// was never requested, and no further transport call is owed.
pub proof fn lemma_off_failure_short_circuits(t: Target, e: CommandError)
    ensures
        ({
            let r = spec_off_completed(spec_reboot_begin(t), Err(e));
            &&& r.phase == RebootPhase::Complete(RebootOutcome::FailedOff(e))
            &&& !r.on_requested
            &&& spec_pending_command(r) is None
        }),
{
}

/// A cancellation during the settle delay leaves the device powered off: the
/// sequence completes as cancelled, the reported power state is off, the
/// "on" command was never requested, and no further transport call is owed.
pub proof fn lemma_cancel_during_settle_leaves_off(t: Target)
    ensures
        ({
            let settling = spec_off_completed(spec_reboot_begin(t), Ok(()));
            let r = spec_cancel(settling);
            &&& settling.phase matches RebootPhase::Settling
            &&& r.phase == RebootPhase::Complete(RebootOutcome::Cancelled)
            &&& !r.on_requested
            &&& spec_pending_command(r) is None
            &&& spec_outcome_power(RebootOutcome::Cancelled) == Some(false)
        }),
{
}

/// A completed sequence is terminal: no transition changes it and no
/// transport call is owed, so an "on" never requested stays never requested.
pub proof fn lemma_complete_is_terminal(r: RebootSequence, result: Result<(), CommandError>)
    requires
        r.phase matches RebootPhase::Complete(_),
    ensures
        spec_off_completed(r, result) == r,
        spec_settle_elapsed(r) == r,
        spec_cancel(r) == r,
        spec_on_completed(r, result) == r,
        spec_pending_command(r) is None,
{
}

} // verus!
