//! The driver connection state machine.

use vstd::prelude::*;

verus! {

/// Connection state for driver connections
#[derive(Debug, Clone, Copy, PartialEq, Eq, Structural)]
pub enum ConnectionState {
    /// Not connected, no active connection attempt
    Disconnected,
    /// Currently attempting to establish connection
    Connecting,
    /// Successfully connected and operational
    Connected,
    /// Attempting to reconnect after a disconnection
    Reconnecting,
    /// Connection failed permanently (requires manual intervention)
    Failed,
}

impl ConnectionState {
    /// A connection attempt may start from `Disconnected` or `Failed`.
    pub open spec fn may_connect(self) -> bool {
        self == ConnectionState::Disconnected || self == ConnectionState::Failed
    }

    /// `Connecting` and `Reconnecting` are the transitional states.
    pub open spec fn transitional(self) -> bool {
        self == ConnectionState::Connecting || self == ConnectionState::Reconnecting
    }

    /// A reconnection may start from `Connected` or `Disconnected`.
    pub open spec fn may_start_reconnect(self) -> bool {
        self == ConnectionState::Connected || self == ConnectionState::Disconnected
    }

    /// Check if state allows connection attempt
    pub fn can_connect(&self) -> (r: bool)
        ensures
            r == self.may_connect(),
    {
        match self {
            ConnectionState::Disconnected | ConnectionState::Failed => true,
            _ => false,
        }
    }

    /// Whether a reconnection may start: from `Connected` or `Disconnected`, exactly the
    /// states `to_reconnecting` accepts.
    pub fn can_reconnect(&self) -> (r: bool)
        ensures
            r == self.may_start_reconnect(),
    {
        match self {
            ConnectionState::Connected | ConnectionState::Disconnected => true,
            _ => false,
        }
    }

    /// Check if currently connected
    pub fn is_connected(&self) -> (r: bool)
        ensures
            r == (*self == ConnectionState::Connected),
    {
        match self {
            ConnectionState::Connected => true,
            _ => false,
        }
    }

    /// Check if in a transitional state
    pub fn is_transitioning(&self) -> (r: bool)
        ensures
            r == self.transitional(),
    {
        match self {
            ConnectionState::Connecting | ConnectionState::Reconnecting => true,
            _ => false,
        }
    }

    /// Transition to connecting state
    pub fn to_connecting(&self) -> (r: Result<ConnectionState, &'static str>)
        ensures
            self.may_connect() ==> r == Ok::<ConnectionState, &'static str>(ConnectionState::Connecting),
            !self.may_connect() ==> r is Err && r->Err_0@
                == "Can only connect from Disconnected or Failed state"@,
    {
        match self {
            ConnectionState::Disconnected | ConnectionState::Failed => Ok(ConnectionState::Connecting),
            _ => Err("Can only connect from Disconnected or Failed state"),
        }
    }

    /// Transition to connected state
    pub fn to_connected(&self) -> (r: Result<ConnectionState, &'static str>)
        ensures
            self.transitional() ==> r == Ok::<ConnectionState, &'static str>(ConnectionState::Connected),
            !self.transitional() ==> r is Err && r->Err_0@
                == "Can only complete connection from Connecting or Reconnecting state"@,
    {
        match self {
            ConnectionState::Connecting | ConnectionState::Reconnecting => Ok(ConnectionState::Connected),
            _ => Err("Can only complete connection from Connecting or Reconnecting state"),
        }
    }

    /// Transition to disconnected state
    pub fn to_disconnected(&self) -> (r: ConnectionState)
        ensures
            r == ConnectionState::Disconnected,
    {
        ConnectionState::Disconnected
    }

    /// Transition to reconnecting state
    pub fn to_reconnecting(&self) -> (r: Result<ConnectionState, &'static str>)
        ensures
            self.may_start_reconnect() ==> r == Ok::<ConnectionState, &'static str>(
                ConnectionState::Reconnecting,
            ),
            !self.may_start_reconnect() ==> r is Err && r->Err_0@
                == "Can only reconnect from Connected or Disconnected state"@,
    {
        match self {
            ConnectionState::Connected | ConnectionState::Disconnected => Ok(ConnectionState::Reconnecting),
            _ => Err("Can only reconnect from Connected or Disconnected state"),
        }
    }

    /// Transition to failed state
    pub fn to_failed(&self) -> (r: ConnectionState)
        ensures
            r == ConnectionState::Failed,
    {
        ConnectionState::Failed
    }

    pub fn default() -> (r: ConnectionState)
        ensures
            r == ConnectionState::Disconnected,
    {
        ConnectionState::Disconnected
    }
}

/// The one-step moves of the state machine: connect, complete, reconnect, and the
/// unconditional drops to `Disconnected` and `Failed`.
pub open spec fn step_allowed(from: ConnectionState, to: ConnectionState) -> bool {
    ||| (from.may_connect() && to == ConnectionState::Connecting)
    ||| (from.transitional() && to == ConnectionState::Connected)
    ||| (from.may_start_reconnect() && to == ConnectionState::Reconnecting)
    ||| to == ConnectionState::Disconnected
    ||| to == ConnectionState::Failed
}

/// `Connected` is reached only through a transitional state: no allowed move enters it
/// from `Disconnected` or `Failed` directly.
pub proof fn lemma_connected_only_from_transitional(from: ConnectionState)
    ensures
        step_allowed(from, ConnectionState::Connected) <==> from.transitional(),
{
}

/// From any state where a connection may start, connecting and then completing reaches
/// `Connected`; and the initial state is such a state.
pub proof fn lemma_connect_then_complete_reaches_connected(s: ConnectionState)
    requires
        s.may_connect(),
    ensures
        step_allowed(s, ConnectionState::Connecting),
        step_allowed(ConnectionState::Connecting, ConnectionState::Connected),
        ConnectionState::Disconnected.may_connect(),
{
}

/// The transitional states, and only they, may neither start a connection nor count as
/// connected.
pub proof fn lemma_state_classes_partition(s: ConnectionState)
    ensures
        s.transitional() <==> (!s.may_connect() && s != ConnectionState::Connected),
{
}

} // verus!
