//! The error taxonomy of caller-facing operations.

use vstd::prelude::*;

verus! {

/// Why an operation failed. Malformed frames are deliberately absent:
/// they are silently dropped, never surfaced.
#[derive(Debug, Clone, Copy, PartialEq, Eq, Structural)]
pub enum BleError {
    /// No radio adapter could be acquired.
    AdapterUnavailable,
    /// The targeted scan timed out without a matching advertisement.
    DeviceNotFound,
    /// The adapter rejected the connection request.
    ConnectFailed,
    /// No characteristic of any service advertises notification support.
    NoNotifyingCharacteristic,
    /// The peripheral rejected the notification subscription.
    SubscribeFailed,
    /// The notification stream failed mid-session.
    TransportReadError,
    /// A batch connect item is missing a required field.
    InvalidRequest,
}

impl BleError {
    /// A short human-readable description.
    pub fn message(&self) -> (r: &'static str)
        ensures
            *self == BleError::AdapterUnavailable ==> r@ == "no BLE adapter available"@,
            *self == BleError::DeviceNotFound ==> r@ == "device not found (timeout)"@,
            *self == BleError::ConnectFailed ==> r@ == "connect error"@,
            *self == BleError::NoNotifyingCharacteristic ==> r@
                == "no notifying characteristic"@,
            *self == BleError::SubscribeFailed ==> r@ == "subscribe error"@,
            *self == BleError::TransportReadError ==> r@ == "transport read error"@,
            *self == BleError::InvalidRequest ==> r@ == "invalid request"@,
    {
        match self {
            BleError::AdapterUnavailable => "no BLE adapter available",
            BleError::DeviceNotFound => "device not found (timeout)",
            BleError::ConnectFailed => "connect error",
            BleError::NoNotifyingCharacteristic => "no notifying characteristic",
            BleError::SubscribeFailed => "subscribe error",
            BleError::TransportReadError => "transport read error",
            BleError::InvalidRequest => "invalid request",
        }
    }
}

} // verus!
