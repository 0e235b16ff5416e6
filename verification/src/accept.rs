//! The accept loop: what a server does with each outcome of accepting a
//! connection.
//!
//! The loop hears of nothing else. In particular no event tells it how a
//! connection's handler ended, so a failed handler cannot stop it.

use crate::config::Model;
use vstd::prelude::*;

verus! {

/// Where the accept loop stands.
#[derive(Clone, Copy, PartialEq, Eq, Structural, Debug)]
pub enum AcceptState {
    /// The loop accepts connections.
    Listening,
    /// Accepting failed once; the loop has ended.
    Stopped,
}

/// How an attempt to accept a connection ended.
#[derive(Clone, Copy, PartialEq, Eq, Structural, Debug)]
pub enum AcceptEvent {
    /// A connection was accepted.
    Accepted,
    /// Accepting failed.
    AcceptFailed,
}

/// What the accept loop does after an attempt.
#[derive(Clone, Copy, PartialEq, Eq, Structural, Debug)]
pub enum AcceptAction {
    /// Hand the connection to a handler of its own, then accept again.
    Serve,
    /// End the loop; accepting is not tried again. With `join_handlers` the
    /// server returns only once every handler it started has ended.
    Stop { join_handlers: bool },
}

/// Whether a server of this model waits for its handlers before it returns.
/// Threads are scoped to the accept loop; tasks are not.
pub open spec fn joins_handlers(model: Model) -> bool {
    model == Model::ThreadPerConnection
}

/// The state that follows `state` after `event`, and what the loop does.
pub open spec fn accept_step(model: Model, state: AcceptState, event: AcceptEvent) -> (
    AcceptState,
    AcceptAction,
) {
    match (state, event) {
        (AcceptState::Listening, AcceptEvent::Accepted) => (
            AcceptState::Listening,
            AcceptAction::Serve,
        ),
        _ => (AcceptState::Stopped, AcceptAction::Stop { join_handlers: joins_handlers(model) }),
    }
}

/// The accept loop of one server.
#[derive(Clone, Copy, PartialEq, Eq, Structural, Debug)]
pub struct AcceptLoop {
    /// The server's concurrency model.
    pub model: Model,
    /// Where the loop stands.
    pub state: AcceptState,
}

impl AcceptLoop {
    /// The accept loop of a server that just began to listen.
    pub fn new(model: Model) -> (accept: AcceptLoop)
        ensures
            accept.model == model,
            accept.state == AcceptState::Listening,
    {
        AcceptLoop { model, state: AcceptState::Listening }
    }

    /// Takes in how an attempt to accept ended.
    ///
    /// Every accepted connection gets a handler of its own. The first
    /// failure ends the loop for good; a thread-per-connection server then
    /// waits for its handlers, an event-loop server does not.
    pub fn handle(&mut self, event: AcceptEvent) -> (action: AcceptAction)
        ensures
            final(self).model == old(self).model,
            (final(self).state, action) == accept_step(old(self).model, old(self).state, event),
    {
        match (self.state, event) {
            (AcceptState::Listening, AcceptEvent::Accepted) => AcceptAction::Serve,
            _ => {
                self.state = AcceptState::Stopped;
                let join_handlers = match self.model {
                    Model::ThreadPerConnection => true,
                    Model::EventLoop => false,
                };
                AcceptAction::Stop { join_handlers }
            },
        }
    }
}

} // verus!
