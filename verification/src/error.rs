//! The general error type of carrlink.

use vstd::prelude::*;

verus! {

/// Enumeration of error cases.
#[derive(Debug)]
pub enum Error {
    /// The operating system denied access to the transport.
    PermissionDenied,
    /// No control unit could be found.
    DeviceNotFound,
    /// The transport is not connected to a control unit.
    NotConnected,
    /// The transport cannot perform the operation; the text says which.
    NotSupported(String),
    /// The exchange took longer than the configured timeout.
    TimedOut,
    /// The transport failed while running; the text says how.
    RuntimeError(String),
    /// The control unit answered with something that is no valid frame.
    InvalidResponse,
    /// The control unit did not answer.
    NoResponse,
    /// Any other failure of the transport, kept as its description.
    Other(String),
}

} // verus!
