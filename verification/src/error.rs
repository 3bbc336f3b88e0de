//! The error vocabulary shared by every component of the library.

use vstd::prelude::*;
use crate::message::ButtplugCurrentSpecDeviceMessageType;

verus! {

/// The kinds of failure a remote side can report.
#[derive(Clone, Copy, Debug, PartialEq, Eq, Structural, Hash)]
pub enum ButtplugErrorKind {
    Unknown,
    Handshake,
    Ping,
    Message,
    Device,
}

/// Everything that can go wrong between a caller and a device.
#[derive(Debug, PartialEq, Eq)]
pub enum ButtplugClientError {
    /// The session that owns the device is no longer connected.
    ConnectorNotConnected,
    /// The session's intake refused the command: it has shut down.
    ConnectorChannelClosed,
    /// The named device is no longer connected.
    DeviceNotConnected(String),
    /// The device does not accept this command category.
    MessageNotSupported(ButtplugCurrentSpecDeviceMessageType),
    /// A list or map names more features than the device has: features
    /// the device has, then entries given.
    DeviceFeatureCountMismatch(u32, usize),
    /// A sparse index is not below the feature count: the feature count,
    /// then the index.
    DeviceFeatureIndexError(u32, u32),
    /// An answer arrived in a shape the caller did not ask for; the text
    /// names the shape that came.
    UnexpectedMessageType(String),
    /// The remote side reported a failure: its kind and its own words.
    DomainError(ButtplugErrorKind, String),
}

} // verus!
