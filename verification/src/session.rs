//! Persistent sessions on the broker: how one is created and how it is
//! cleared.

use vstd::prelude::*;

verus! {

/// What the connection tells while a session is set up.
#[derive(Debug, Clone, Copy, PartialEq, Eq, Structural)]
pub enum SessionEvent {
    /// The broker answered the connection.
    ConnAck { accepted: bool },
    /// The broker answered the subscriptions.
    SubAck,
    /// The connection failed.
    ConnectionError,
    /// Anything else.
    Other,
}

/// What to do next with the connection.
#[derive(Debug, Clone, Copy, PartialEq, Eq, Structural)]
pub enum SessionAction {
    /// Subscribe to the topics of the session and go on.
    Subscribe,
    /// Go on.
    Continue,
    /// Disconnect: the session is set up, as far as it can be.
    Disconnect,
    /// Give up: the broker refused the connection.
    Fail,
}

/// What to do while a session is created: a connection that is refused
/// fails; once it is accepted the topics are subscribed to, or, where there
/// are none, the connection is closed; it is closed too when the
/// subscriptions are answered and when the connection fails.
pub fn init_session_step(has_subscriptions: bool, event: SessionEvent) -> (r: SessionAction)
    ensures
        r == match event {
            SessionEvent::ConnAck { accepted } => if !accepted {
                SessionAction::Fail
            } else if has_subscriptions {
                SessionAction::Subscribe
            } else {
                SessionAction::Disconnect
            },
            SessionEvent::SubAck => SessionAction::Disconnect,
            SessionEvent::ConnectionError => SessionAction::Disconnect,
            SessionEvent::Other => SessionAction::Continue,
        },
{
    match event {
        SessionEvent::ConnAck { accepted } => if !accepted {
            SessionAction::Fail
        } else if has_subscriptions {
            SessionAction::Subscribe
        } else {
            SessionAction::Disconnect
        },
        SessionEvent::SubAck => SessionAction::Disconnect,
        SessionEvent::ConnectionError => SessionAction::Disconnect,
        SessionEvent::Other => SessionAction::Continue,
    }
}

/// What to do while a session is cleared: a connection that is refused
/// fails; once it is accepted, or when it fails, the connection is closed.
pub fn clear_session_step(event: SessionEvent) -> (r: SessionAction)
    ensures
        r == match event {
            SessionEvent::ConnAck { accepted } => if accepted {
                SessionAction::Disconnect
            } else {
                SessionAction::Fail
            },
            SessionEvent::ConnectionError => SessionAction::Disconnect,
            _ => SessionAction::Continue,
        },
{
    match event {
        SessionEvent::ConnAck { accepted } => if accepted {
            SessionAction::Disconnect
        } else {
            SessionAction::Fail
        },
        SessionEvent::ConnectionError => SessionAction::Disconnect,
        _ => SessionAction::Continue,
    }
}

} // verus!
