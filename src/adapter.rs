//! Turns the transport's inbound events into messages for the application.
//!
//! Each translation is pure: it takes the event's payload and returns the one
//! message that carries it. Enqueuing that message is up to the caller.
use crate::message::{AuthenticationStatus, IotMessage, Message, TwinUpdateState};
use vstd::prelude::*;

verus! {

/// The message that reports connection status `s`.
pub open spec fn status_message(s: AuthenticationStatus) -> Message {
    match s {
        AuthenticationStatus::Authenticated => Message::Authenticated,
        AuthenticationStatus::Unauthenticated(reason) => Message::Unauthenticated(reason),
    }
}

/// A connection status is carried whole: two statuses that give the same
/// message are the same status, reason included.
pub proof fn lemma_status_message_keeps_status(s1: AuthenticationStatus, s2: AuthenticationStatus)
    requires
        status_message(s1) == status_message(s2),
    ensures
        s1 == s2,
{
}

/// The inbound side of the transport: the direct methods it may invoke, and
/// the messages its events turn into.
pub struct ClientEventHandler<D> {
    pub direct_methods: Option<D>,
}

impl<D> ClientEventHandler<D> {
    /// A handler that offers `direct_methods`, if any.
    pub fn new(direct_methods: Option<D>) -> (r: Self)
        ensures
            r.direct_methods == direct_methods,
    {
        ClientEventHandler { direct_methods }
    }

    /// The message for a change of connection status.
    pub fn handle_connection_status(&self, status: AuthenticationStatus) -> (r: Message)
        ensures
            r == status_message(status),
    {
        match status {
            AuthenticationStatus::Authenticated => Message::Authenticated,
            AuthenticationStatus::Unauthenticated(reason) => Message::Unauthenticated(reason),
        }
    }

    /// The message for a cloud-to-device message, which it carries unchanged.
    pub fn handle_c2d_message(&self, message: IotMessage) -> (r: Message)
        ensures
            r == Message::C2D(message),
    {
        Message::C2D(message)
    }

    /// The message for a desired-property update, which it carries unchanged.
    pub fn handle_twin_desired(&self, state: TwinUpdateState, desired: serde_json::Value) -> (r:
        Message)
        ensures
            r == Message::Desired(state, desired),
    {
        Message::Desired(state, desired)
    }

    /// The keys of the message properties that the application wants to see
    /// on cloud-to-device messages.
    pub fn get_c2d_message_property_keys(&self) -> (r: Vec<&'static str>)
        ensures
            r@.len() == 2,
            r@[0]@ == "p1"@,
            r@[1]@ == "p2"@,
    {
        vec!["p1", "p2"]
    }

    /// The direct methods that the transport may invoke, if any.
    pub fn get_direct_methods(&self) -> (r: Option<&D>)
        ensures
            match r {
                Some(d) => self.direct_methods == Some(*d),
                None => self.direct_methods is None,
            },
    {
        self.direct_methods.as_ref()
    }
}

} // verus!
