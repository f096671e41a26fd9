//! Control core for a family of networked smart-home devices: plugs, power
//! strips with addressable outlets, and hubs with heterogeneous children.
//!
//! The crate holds the decision layer only: session lifecycle, child
//! resolution, variant dispatch and command orchestration. The transport that
//! actually talks to a device is an external collaborator; a host drives the
//! state machines here, performs each requested action, and hands the result
//! back as an event.

pub mod device;
pub mod dispatch;
pub mod error;
pub mod handle;
pub mod orchestrate;
pub mod resolve;
pub mod session;
