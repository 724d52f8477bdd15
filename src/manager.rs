//! The connection manager's run loop as a state machine.
//!
//! The manager owns no transport itself. It tells its driver which step to
//! perform next (an [`Action`]) and learns the outcome of that step from the
//! next [`Event`]. The driver owns the transport, the channel and the run
//! flag, performs the action it was handed, and reports back, until the
//! manager hands out [`Action::Exit`].
use crate::message::{IotMessage, Message};
use vstd::prelude::*;

verus! {

/// How long one receive waits for an outbound message, in milliseconds.
pub const POLL_INTERVAL_MS: u64 = 100;

/// The kind of client that the environment provisions.
#[derive(Clone, Copy, Debug, PartialEq, Eq)]
pub enum ClientType {
    Device,
    Module,
    Edge,
}

/// How the transport is acquired.
#[derive(Clone, Copy, Debug, PartialEq, Eq)]
pub enum TransportSource {
    ConnectionString,
    IdentityService,
    EdgeEnvironment,
}

/// An explicit connection string wins; otherwise a device or module client
/// goes through the identity service and an edge client through its
/// environment.
pub open spec fn source_for(has_connection_string: bool, client_type: ClientType) -> TransportSource {
    if has_connection_string {
        TransportSource::ConnectionString
    } else {
        match client_type {
            ClientType::Device | ClientType::Module => TransportSource::IdentityService,
            ClientType::Edge => TransportSource::EdgeEnvironment,
        }
    }
}

/// Picks the transport acquisition strategy by configuration precedence.
pub fn select_transport_source(has_connection_string: bool, client_type: ClientType) -> (r:
    TransportSource)
    ensures
        r == source_for(has_connection_string, client_type),
{
    if has_connection_string {
        TransportSource::ConnectionString
    } else {
        match client_type {
            ClientType::Device | ClientType::Module => TransportSource::IdentityService,
            ClientType::Edge => TransportSource::EdgeEnvironment,
        }
    }
}

/// Where the run loop stands: which outcome it waits for, or that it ended.
#[derive(Clone, Copy, Debug, PartialEq, Eq)]
pub enum Phase {
    /// Not started.
    Idle,
    /// Waiting for the liveness notifier's initialisation.
    InitializingLiveness,
    /// Waiting for the transport's construction.
    Constructing,
    /// Waiting for the value of the run flag.
    CheckingFlag,
    /// Waiting for one outbound message, or for the poll interval to pass.
    Receiving,
    /// Waiting for the transport to take a reported state or telemetry.
    Sending,
    /// Waiting for the transport's background work to finish one tick.
    Working,
    /// Waiting for the liveness notifier to take one ping.
    Notifying,
    /// The loop has ended; its result went out with [`Action::Exit`].
    Terminated,
}

/// The outcome of the last action, handed to the manager by its driver.
#[derive(Debug)]
pub enum Event<E> {
    /// The driver asks the loop to begin.
    Start,
    /// The liveness notifier was initialised, or failed to be.
    LivenessInitialized(Result<(), E>),
    /// The transport was constructed, or failed to be.
    Constructed(Result<(), E>),
    /// The run flag was read.
    Flag(bool),
    /// One message arrived, or `None`: the poll interval passed first.
    Received(Option<Message>),
    /// The transport took the message, or failed to.
    Sent(Result<(), E>),
    /// The transport finished one tick of background work.
    WorkDone,
    /// The liveness notifier took the ping, or failed to.
    Notified(Result<(), E>),
}

/// The next step that the driver is to perform.
#[derive(Debug)]
pub enum Action<E> {
    /// Initialise the liveness notifier.
    InitLiveness,
    /// Construct the transport from the given source.
    Construct(TransportSource),
    /// Read the run flag.
    ReadFlag,
    /// Wait up to [`POLL_INTERVAL_MS`] for one outbound message.
    Receive,
    /// Send a device-twin reported state to the transport.
    SendReported(serde_json::Value),
    /// Send a device-to-cloud message to the transport.
    SendD2C(IotMessage),
    /// Run one tick of the transport's background work.
    DoWork,
    /// Ping the liveness notifier once.
    Notify,
    /// Drop the transport and end the loop with this result.
    Exit(Result<(), E>),
}

/// The run loop of one transport session.
#[derive(Debug)]
pub struct ConnectionManager {
    pub phase: Phase,
    pub source: TransportSource,
    pub liveness: bool,
}

/// Whether the loop waits for the outcome that `e` reports.
pub open spec fn fits<E>(p: Phase, e: Event<E>) -> bool {
    match (p, e) {
        (Phase::Idle, Event::Start) => true,
        (Phase::InitializingLiveness, Event::LivenessInitialized(_)) => true,
        (Phase::Constructing, Event::Constructed(_)) => true,
        (Phase::CheckingFlag, Event::Flag(_)) => true,
        (Phase::Receiving, Event::Received(_)) => true,
        (Phase::Sending, Event::Sent(_)) => true,
        (Phase::Working, Event::WorkDone) => true,
        (Phase::Notifying, Event::Notified(_)) => true,
        _ => false,
    }
}

/// The manager `m` in phase `p`, and the action `a` it hands out.
pub open spec fn go<E>(m: ConnectionManager, p: Phase, a: Action<E>) -> (ConnectionManager, Action<E>) {
    (ConnectionManager { phase: p, ..m }, a)
}

/// The loop ends with result `r`.
pub open spec fn end<E>(m: ConnectionManager, r: Result<(), E>) -> (ConnectionManager, Action<E>) {
    go(m, Phase::Terminated, Action::Exit(r))
}

/// Once the transport exists, each iteration begins by reading the flag.
pub open spec fn check_flag<E>(m: ConnectionManager) -> (ConnectionManager, Action<E>) {
    go(m, Phase::CheckingFlag, Action::ReadFlag)
}

/// One transition of the run loop, for an event that [`fits`] its phase.
pub open spec fn next<E>(m: ConnectionManager, e: Event<E>) -> (ConnectionManager, Action<E>) {
    match e {
        Event::Start => if m.liveness {
            go(m, Phase::InitializingLiveness, Action::InitLiveness)
        } else {
            go(m, Phase::Constructing, Action::Construct(m.source))
        },
        Event::LivenessInitialized(r) => match r {
            Ok(_) => go(m, Phase::Constructing, Action::Construct(m.source)),
            Err(_) => end(m, r),
        },
        Event::Constructed(r) => match r {
            Ok(_) => check_flag(m),
            Err(_) => end(m, r),
        },
        Event::Flag(running) => if running {
            go(m, Phase::Receiving, Action::Receive)
        } else {
            end(m, Ok(()))
        },
        Event::Received(received) => match received {
            Some(Message::Reported(v)) => go(m, Phase::Sending, Action::SendReported(v)),
            Some(Message::D2C(x)) => go(m, Phase::Sending, Action::SendD2C(x)),
            Some(Message::Terminate) => end(m, Ok(())),
            _ => go(m, Phase::Working, Action::DoWork),
        },
        Event::Sent(r) => match r {
            Ok(_) => go(m, Phase::Working, Action::DoWork),
            Err(_) => end(m, r),
        },
        Event::WorkDone => if m.liveness {
            go(m, Phase::Notifying, Action::Notify)
        } else {
            check_flag(m)
        },
        Event::Notified(r) => match r {
            Ok(_) => check_flag(m),
            Err(_) => end(m, r),
        },
    }
}

impl ConnectionManager {
    /// A manager that has not started, for a transport from `source`, with a
    /// liveness notifier if `liveness` holds.
    pub fn new(source: TransportSource, liveness: bool) -> (r: Self)
        ensures
            r.phase is Idle,
            r.source == source,
            r.liveness == liveness,
    {
        ConnectionManager { phase: Phase::Idle, source, liveness }
    }

    /// Whether the loop has ended.
    pub fn is_terminated(&self) -> (r: bool)
        ensures
            r == (self.phase is Terminated),
    {
        match self.phase {
            Phase::Terminated => true,
            _ => false,
        }
    }

    /// Whether the manager waits for the outcome that `e` reports.
    pub fn accepts<E>(&self, e: &Event<E>) -> (r: bool)
        ensures
            r == fits(self.phase, *e),
    {
        match (&self.phase, e) {
            (Phase::Idle, Event::Start) => true,
            (Phase::InitializingLiveness, Event::LivenessInitialized(_)) => true,
            (Phase::Constructing, Event::Constructed(_)) => true,
            (Phase::CheckingFlag, Event::Flag(_)) => true,
            (Phase::Receiving, Event::Received(_)) => true,
            (Phase::Sending, Event::Sent(_)) => true,
            (Phase::Working, Event::WorkDone) => true,
            (Phase::Notifying, Event::Notified(_)) => true,
            _ => false,
        }
    }

    /// Takes the outcome of the last action and hands out the next one.
    pub fn step<E>(&mut self, e: Event<E>) -> (r: Action<E>)
        requires
            fits(old(self).phase, e),
        ensures
            (*final(self), r) == next(*old(self), e),
    {
        match e {
            Event::Start => if self.liveness {
                self.phase = Phase::InitializingLiveness;
                Action::InitLiveness
            } else {
                self.phase = Phase::Constructing;
                Action::Construct(self.source)
            },
            Event::LivenessInitialized(r) => match r {
                Ok(_) => {
                    self.phase = Phase::Constructing;
                    Action::Construct(self.source)
                },
                Err(err) => self.finish(Err(err)),
            },
            Event::Constructed(r) => match r {
                Ok(_) => {
                    self.phase = Phase::CheckingFlag;
                    Action::ReadFlag
                },
                Err(err) => self.finish(Err(err)),
            },
            Event::Flag(running) => if running {
                self.phase = Phase::Receiving;
                Action::Receive
            } else {
                self.finish(Ok(()))
            },
            Event::Received(received) => match received {
                Some(Message::Reported(v)) => {
                    self.phase = Phase::Sending;
                    Action::SendReported(v)
                },
                Some(Message::D2C(x)) => {
                    self.phase = Phase::Sending;
                    Action::SendD2C(x)
                },
                Some(Message::Terminate) => self.finish(Ok(())),
                _ => {
                    self.phase = Phase::Working;
                    Action::DoWork
                },
            },
            Event::Sent(r) => match r {
                Ok(_) => {
                    self.phase = Phase::Working;
                    Action::DoWork
                },
                Err(err) => self.finish(Err(err)),
            },
            Event::WorkDone => if self.liveness {
                self.phase = Phase::Notifying;
                Action::Notify
            } else {
                self.phase = Phase::CheckingFlag;
                Action::ReadFlag
            },
            Event::Notified(r) => match r {
                Ok(_) => {
                    self.phase = Phase::CheckingFlag;
                    Action::ReadFlag
                },
                Err(err) => self.finish(Err(err)),
            },
        }
    }

    /// Ends the loop with `r`, which the exit action carries out.
    fn finish<E>(&mut self, r: Result<(), E>) -> (a: Action<E>)
        ensures
            (*final(self), a) == end(*old(self), r),
    {
        self.phase = Phase::Terminated;
        Action::Exit(r)
    }
}

} // verus!
