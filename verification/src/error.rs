//! Typed, recoverable error classification. A missing child or a bad input is
//! reported to the caller; it never terminates the process.

use vstd::prelude::*;

verus! {

/// A transport failure unrelated to authentication. Propagated unchanged; the
/// core applies no retry policy to these.
#[derive(Clone, Copy, PartialEq, Eq, Structural, Debug)]
pub enum TransportFailure {
    Network,
    Malformed,
    /// The caller-supplied bound on the round trip ran out before a reply.
    Timeout,
}

/// A required input was missing or unusable, detectable before any network
/// call.
#[derive(Clone, Copy, PartialEq, Eq, Structural, Debug)]
pub enum ConfigIssue {
    /// `on`/`off`/`reboot` against a composite device needs a child nickname.
    MissingChildNickname,
    /// The supplied intent word is not one of `on`, `off`, `reboot`, `info`.
    UnknownIntent,
}

/// Why a command did not produce its success payload.
#[derive(Clone, Debug)]
pub enum CommandError {
    /// Credentials were rejected, or the session could not be refreshed after
    /// the single permitted retry.
    Authentication,
    /// The requested nickname matched no enumerated child; reported with the
    /// identifier asked for and the endpoint it was asked of.
    ChildNotFound { nickname: String, address: String },
    /// The device kind or child kind does not support the request; carries the
    /// kind string as reported or requested.
    UnsupportedDeviceType { reported: String },
    /// Network or protocol failure, surfaced unchanged.
    Transport(TransportFailure),
    /// Required input missing or unusable; raised before any network call.
    Configuration(ConfigIssue),
}

} // verus!
