//! The state of a connection as everyone may observe it.
//!
//! A connection starts `New`, is `Connecting` once a description has been
//! set, and is `Connected` when the transport says so. `Failed` and `Closed`
//! end it: to try again, make a new connection.

use vstd::prelude::*;

verus! {

/// Where a connection stands.
#[derive(Clone, Copy, Debug, PartialEq, Eq, Structural)]
pub enum ConnectionState {
    New,
    Connecting,
    Connected,
    Failed,
    Closed,
}

impl ConnectionState {
    /// Whether the state is one that is never left.
    pub open spec fn is_terminal(self) -> bool {
        self == ConnectionState::Failed || self == ConnectionState::Closed
    }

    /// Whether a connection in this state may pass to `next`.
    pub open spec fn may_become(self, next: ConnectionState) -> bool {
        match (self, next) {
            (ConnectionState::New, ConnectionState::Connecting) => true,
            (ConnectionState::Connecting, ConnectionState::Connected) => true,
            (ConnectionState::New, ConnectionState::Failed)
            | (ConnectionState::Connecting, ConnectionState::Failed)
            | (ConnectionState::Connected, ConnectionState::Failed) => true,
            (ConnectionState::New, ConnectionState::Closed)
            | (ConnectionState::Connecting, ConnectionState::Closed)
            | (ConnectionState::Connected, ConnectionState::Closed) => true,
            _ => false,
        }
    }

    /// The state after the transport has reported `reported`: the report is
    /// taken where the step is allowed and ignored where it is not.
    pub open spec fn after_report(self, reported: ConnectionState) -> ConnectionState {
        if self.may_become(reported) {
            reported
        } else {
            self
        }
    }

    /// The state after a description has been set: a new connection starts
    /// connecting, any other stays as it is.
    pub open spec fn after_description(self) -> ConnectionState {
        self.after_report(ConnectionState::Connecting)
    }

    /// Whether the connection has ended.
    pub fn ended(self) -> (ended: bool)
        ensures
            ended == self.is_terminal(),
    {
        match self {
            ConnectionState::Failed | ConnectionState::Closed => true,
            _ => false,
        }
    }

    /// Applies a report of the transport.
    pub fn report(self, reported: ConnectionState) -> (next: ConnectionState)
        ensures
            next == self.after_report(reported),
    {
        let allowed = match self {
            ConnectionState::New => match reported {
                ConnectionState::Connecting
                | ConnectionState::Failed
                | ConnectionState::Closed => true,
                _ => false,
            },
            ConnectionState::Connecting => match reported {
                ConnectionState::Connected
                | ConnectionState::Failed
                | ConnectionState::Closed => true,
                _ => false,
            },
            ConnectionState::Connected => match reported {
                ConnectionState::Failed | ConnectionState::Closed => true,
                _ => false,
            },
            ConnectionState::Failed | ConnectionState::Closed => false,
        };
        if allowed {
            reported
        } else {
            self
        }
    }
}

/// A connection that has ended stays as it ended, whatever is reported.
pub proof fn lemma_terminal_states_are_final(state: ConnectionState, reported: ConnectionState)
    requires
        state.is_terminal(),
    ensures
        state.after_report(reported) == state,
{
}

/// No report takes a connection back: once connected it is never again new
/// or connecting, and once connecting never again new.
pub proof fn lemma_state_never_goes_back(state: ConnectionState, reported: ConnectionState)
    ensures
        state.after_report(reported) == ConnectionState::New ==> state == ConnectionState::New,
        state.after_report(reported) == ConnectionState::Connecting ==> state
            == ConnectionState::New || state == ConnectionState::Connecting,
{
}

} // verus!
