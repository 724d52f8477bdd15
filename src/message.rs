//! The closed set of messages exchanged across the concurrency boundary.
use vstd::prelude::*;

verus! {

/// Relies on serde_json::Value as the payload of a device-twin document:
/// the library only moves such values, never reads or builds one.
#[verifier::external_type_specification]
#[verifier::external_body]
pub struct ExValue(serde_json::Value);

/// Whether a desired-property update carries the whole document or a patch.
#[derive(Clone, Copy, Debug, PartialEq, Eq)]
pub enum TwinUpdateState {
    Complete,
    Partial,
}

/// Why the transport session is not (or no longer) authenticated.
#[derive(Clone, Copy, Debug, PartialEq, Eq)]
pub enum UnauthenticatedReason {
    ExpiredSasToken,
    DeviceDisabled,
    BadCredential,
    RetryExpired,
    NoNetwork,
    CommunicationError,
}

/// Authentication status as reported by the transport.
#[derive(Clone, Copy, Debug, PartialEq, Eq)]
pub enum AuthenticationStatus {
    Authenticated,
    Unauthenticated(UnauthenticatedReason),
}

/// A device-to-cloud or cloud-to-device message: a body and its
/// application properties.
#[derive(Clone, Debug, PartialEq, Eq)]
pub struct IotMessage {
    pub body: Vec<u8>,
    pub properties: Vec<(String, String)>,
}

impl IotMessage {
    /// A message with the given body and no properties.
    pub fn new(body: Vec<u8>) -> (r: IotMessage)
        ensures
            r.body == body,
            r.properties@.len() == 0,
    {
        IotMessage { body, properties: Vec::new() }
    }
}

/// One event crossing the boundary between application and transport.
#[derive(Debug)]
pub enum Message {
    Desired(TwinUpdateState, serde_json::Value),
    Reported(serde_json::Value),
    D2C(IotMessage),
    C2D(IotMessage),
    Authenticated,
    Unauthenticated(UnauthenticatedReason),
    Terminate,
}

} // verus!
