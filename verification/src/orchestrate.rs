//! Command orchestration: from a user-level intent and a target description
//! to the operation the handles of this crate carry out.
//!
//! Everything here is decided before any network call: an unknown intent
//! word, an unknown device kind, or a composite power command without a
//! child nickname is rejected as a typed error, never a panic.

use vstd::prelude::*;
use vstd::string::StringExecFns;

use crate::device::{ChildDescriptor, DeviceKind, Endpoint, Intent, Target, kind_is_composite};
use crate::dispatch::{classify, spec_classify, spec_variant_is_outlet, variant_is_outlet};
use crate::error::{CommandError, ConfigIssue};
use crate::resolve::{first_match, resolve_child_index};

verus! {

/// One operation of a device handle.
#[derive(Clone, Copy, PartialEq, Eq, Structural, Debug)]
pub enum DeviceOp {
    PowerOn,
    PowerOff,
    Reboot,
    QueryInfo,
}

/// What an intent asks a handle to do.
pub open spec fn spec_intent_op(intent: Intent) -> DeviceOp {
    match intent {
        Intent::PowerOn => DeviceOp::PowerOn,
        Intent::PowerOff => DeviceOp::PowerOff,
        Intent::Reboot => DeviceOp::Reboot,
        Intent::Info => DeviceOp::QueryInfo,
    }
}

/// Whether an operation changes device state.
pub open spec fn spec_op_mutates(op: DeviceOp) -> bool {
    op != DeviceOp::QueryInfo
}

/// How one intent is to be carried out against one endpoint.
#[derive(Clone, Copy, PartialEq, Eq, Structural, Debug)]
pub enum CommandPlan {
    /// Run the operation on the device itself.
    DeviceCommand(DeviceOp),
    /// Enumerate children, resolve the supplied nickname, and run the
    /// operation on the resolved child.
    ChildCommand(DeviceOp),
    /// Enumerate children and report every one of them, mapped through the
    /// variant dispatcher — not just the first.
    ReportAllChildren,
}

/// Mathematical model of `plan_intent`. A plug takes every intent directly.
/// A composite device takes `info` as a report over all children unless a
/// child is named; a power or reboot intent against it needs a child
/// nickname, whose absence is a configuration error — found before any
/// network call.
pub open spec fn spec_plan(kind: DeviceKind, intent: Intent, has_child: bool) -> Result<
    CommandPlan,
    CommandError,
> {
    if !kind_is_composite(kind) {
        Ok(CommandPlan::DeviceCommand(spec_intent_op(intent)))
    } else if has_child {
        Ok(CommandPlan::ChildCommand(spec_intent_op(intent)))
    } else if intent == Intent::Info {
        Ok(CommandPlan::ReportAllChildren)
    } else {
        Err(CommandError::Configuration(ConfigIssue::MissingChildNickname))
    }
}

/// Decide how to carry out `intent` against a device of `kind`, given
/// whether the caller named a child.
pub fn plan_intent(kind: DeviceKind, intent: Intent, child_nickname: &Option<String>) -> (r:
    Result<CommandPlan, CommandError>)
    ensures
        r == spec_plan(kind, intent, child_nickname.is_some()),
{
    let op: DeviceOp = match intent {
        Intent::PowerOn => DeviceOp::PowerOn,
        Intent::PowerOff => DeviceOp::PowerOff,
        Intent::Reboot => DeviceOp::Reboot,
        Intent::Info => DeviceOp::QueryInfo,
    };
    if !kind.is_composite() {
        Ok(CommandPlan::DeviceCommand(op))
    } else if child_nickname.is_some() {
        Ok(CommandPlan::ChildCommand(op))
    } else {
        match intent {
            Intent::Info => Ok(CommandPlan::ReportAllChildren),
            _ => Err(CommandError::Configuration(ConfigIssue::MissingChildNickname)),
        }
    }
}

/// The intent a command word names, if any.
pub open spec fn spec_parse_intent(s: Seq<char>) -> Option<Intent> {
    if s == "on"@ {
        Some(Intent::PowerOn)
    } else if s == "off"@ {
        Some(Intent::PowerOff)
    } else if s == "reboot"@ {
        Some(Intent::Reboot)
    } else if s == "info"@ {
        Some(Intent::Info)
    } else {
        None
    }
}

/// Parse the command word: exactly `on`, `off`, `reboot` or `info`; any
/// other word is a configuration error, not a panic.
pub fn parse_intent(s: &String) -> (r: Result<Intent, CommandError>)
    ensures
        match r {
            Ok(i) => spec_parse_intent(s@) == Some(i),
            Err(e) => spec_parse_intent(s@) is None && e == CommandError::Configuration(
                ConfigIssue::UnknownIntent,
            ),
        },
{
    if *s == String::from_str("on") {
        Ok(Intent::PowerOn)
    } else if *s == String::from_str("off") {
        Ok(Intent::PowerOff)
    } else if *s == String::from_str("reboot") {
        Ok(Intent::Reboot)
    } else if *s == String::from_str("info") {
        Ok(Intent::Info)
    } else {
        Err(CommandError::Configuration(ConfigIssue::UnknownIntent))
    }
}

/// The device kind a kind word names, if any.
pub open spec fn spec_parse_device_kind(s: Seq<char>) -> Option<DeviceKind> {
    if s == "plug"@ {
        Some(DeviceKind::Plug)
    } else if s == "strip"@ {
        Some(DeviceKind::Strip)
    } else if s == "hub"@ {
        Some(DeviceKind::Hub)
    } else {
        None
    }
}

/// Parse the device kind word: exactly `plug`, `strip` or `hub`; any other
/// word is an unsupported-device-type error carrying the word as given.
pub fn parse_device_kind(s: &String) -> (r: Result<DeviceKind, CommandError>)
    ensures
        match r {
            Ok(k) => spec_parse_device_kind(s@) == Some(k),
            Err(e) => spec_parse_device_kind(s@) is None && (e matches
                CommandError::UnsupportedDeviceType { reported } && reported@ == s@),
        },
{
    if *s == String::from_str("plug") {
        Ok(DeviceKind::Plug)
    } else if *s == String::from_str("strip") {
        Ok(DeviceKind::Strip)
    } else if *s == String::from_str("hub") {
        Ok(DeviceKind::Hub)
    } else {
        Err(CommandError::UnsupportedDeviceType { reported: s.clone() })
    }
}

/// Resolve a named child in one enumerated snapshot and gate the operation
/// on its kind: the target is scoped to the first matching child's stable
/// id; a state-changing operation against a child that is not an outlet is
/// unsupported; an unmatched nickname is `ChildNotFound` naming the nickname
/// and the endpoint.
pub fn route_child_command(
    children: &Vec<ChildDescriptor>,
    nickname: &String,
    op: DeviceOp,
    endpoint: &Endpoint,
) -> (r: Result<Target, CommandError>)
    ensures
        match r {
            Ok(t) => first_match(children@, nickname@) matches Some(d) && t == Target::Child(d.id)
                && (spec_op_mutates(op) ==> spec_variant_is_outlet(spec_classify(d))),
            Err(e) => match e {
                CommandError::ChildNotFound { nickname: n, address: a } => first_match(
                    children@,
                    nickname@,
                ) is None && n@ == nickname@ && a@ == endpoint.address@,
                CommandError::UnsupportedDeviceType { reported } => first_match(
                    children@,
                    nickname@,
                ) matches Some(d) && spec_op_mutates(op) && !spec_variant_is_outlet(
                    spec_classify(d),
                ) && reported@ == d.reported_type@,
                _ => false,
            },
        },
{
    let i: usize = match resolve_child_index(children, nickname, endpoint) {
        Ok(i) => i,
        Err(e) => {
            return Err(e);
        },
    };
    let mutates: bool = match op {
        DeviceOp::QueryInfo => false,
        _ => true,
    };
    if mutates {
        let v = classify(&children[i]);
        if !variant_is_outlet(&v) {
            return Err(
                CommandError::UnsupportedDeviceType {
                    reported: children[i].reported_type.clone(),
                },
            );
        }
    }
    Ok(Target::Child(children[i].id))
}

} // verus!
