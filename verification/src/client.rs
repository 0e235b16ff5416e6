//! The client side of one connection: a worker that performs its share of
//! exchanges strictly one after the other.
//!
//! As on the server side, the worker performs the operation its
//! `ClientSession` names, reports how it ended, and repeats until the session
//! names `Finish` or `Abort`.

use crate::config::SocketOptions;
use vstd::prelude::*;

verus! {

/// Why a worker gave up.
#[derive(Clone, Copy, PartialEq, Eq, Structural, Debug)]
pub enum ClientError {
    /// The connection could not be opened.
    Connect,
    /// A socket option could not be set.
    Configure,
    /// Sending a request failed.
    Send,
    /// The response did not arrive whole.
    Receive,
    /// The worker reported an event that answers no pending operation.
    OutOfOrder,
}

/// Where a worker stands.
#[derive(Clone, Copy, PartialEq, Eq, Structural, Debug)]
pub enum ClientPhase {
    /// The connection is not yet open.
    Connecting,
    /// The socket options are not yet set.
    Configuring,
    /// The next request is not yet sent.
    Sending,
    /// A request is sent and its response has not arrived.
    Receiving,
    /// The share is done.
    Done,
    /// The worker failed.
    Failed(ClientError),
}

/// How a socket operation ended.
#[derive(Clone, Copy, PartialEq, Eq, Structural, Debug)]
pub enum ClientEvent {
    /// The connection is open.
    Connected,
    /// The connection could not be opened.
    ConnectFailed,
    /// The socket options are set.
    Configured,
    /// A socket option could not be set.
    ConfigureFailed,
    /// The request is sent.
    RequestSent,
    /// The request could not be sent.
    SendFailed,
    /// The whole response arrived.
    ResponseReceived,
    /// The stream failed or ended before the whole response arrived.
    ReceiveFailed,
}

/// The socket operation to perform next, or how to end.
#[derive(Clone, Copy, PartialEq, Eq, Structural, Debug)]
pub enum ClientAction {
    /// Open the connection.
    Connect,
    /// Set these options on the socket.
    Configure(SocketOptions),
    /// Send one request.
    SendRequest,
    /// Read one whole response.
    ReceiveResponse,
    /// End the worker: the share is done.
    Finish,
    /// End the worker with this error.
    Abort(ClientError),
}

/// A worker as the contracts see it.
pub struct ClientModel {
    /// Exchanges that the worker is to perform.
    pub share: nat,
    /// Exchanges that it has completed.
    pub completed: nat,
    /// Where it stands.
    pub phase: ClientPhase,
}

impl ClientModel {
    /// What holds of every worker: it never exceeds its share, it has an
    /// exchange left while it sends or receives, and it is done only when
    /// the share is.
    pub open spec fn well_formed(self) -> bool {
        &&& self.completed <= self.share
        &&& (self.phase == ClientPhase::Sending || self.phase == ClientPhase::Receiving)
            ==> self.completed < self.share
        &&& self.phase == ClientPhase::Done ==> self.completed == self.share
        &&& (self.phase == ClientPhase::Connecting || self.phase == ClientPhase::Configuring)
            ==> self.completed == 0
    }
}

/// A worker that has not begun.
pub open spec fn client_start(share: nat) -> ClientModel {
    ClientModel { share, completed: 0, phase: ClientPhase::Connecting }
}

/// The phase in which a worker with `completed` of `share` exchanges behind it
/// goes on.
pub open spec fn phase_after(share: nat, completed: nat) -> ClientPhase {
    if completed >= share {
        ClientPhase::Done
    } else {
        ClientPhase::Sending
    }
}

/// The worker that follows `client` when `event` is reported.
pub open spec fn client_next(client: ClientModel, event: ClientEvent) -> ClientModel {
    match (client.phase, event) {
        (ClientPhase::Connecting, ClientEvent::Connected) => ClientModel {
            phase: ClientPhase::Configuring,
            ..client
        },
        (ClientPhase::Connecting, ClientEvent::ConnectFailed) => ClientModel {
            phase: ClientPhase::Failed(ClientError::Connect),
            ..client
        },
        (ClientPhase::Configuring, ClientEvent::Configured) => ClientModel {
            phase: phase_after(client.share, client.completed),
            ..client
        },
        (ClientPhase::Configuring, ClientEvent::ConfigureFailed) => ClientModel {
            phase: ClientPhase::Failed(ClientError::Configure),
            ..client
        },
        (ClientPhase::Sending, ClientEvent::RequestSent) => ClientModel {
            phase: ClientPhase::Receiving,
            ..client
        },
        (ClientPhase::Sending, ClientEvent::SendFailed) => ClientModel {
            phase: ClientPhase::Failed(ClientError::Send),
            ..client
        },
        (ClientPhase::Receiving, ClientEvent::ResponseReceived) => ClientModel {
            completed: client.completed + 1,
            phase: phase_after(client.share, client.completed + 1),
            ..client
        },
        (ClientPhase::Receiving, ClientEvent::ReceiveFailed) => ClientModel {
            phase: ClientPhase::Failed(ClientError::Receive),
            ..client
        },
        (ClientPhase::Done, _) => client,
        (ClientPhase::Failed(_), _) => client,
        _ => ClientModel { phase: ClientPhase::Failed(ClientError::OutOfOrder), ..client },
    }
}

/// What a worker in `phase` does next.
pub open spec fn client_action(phase: ClientPhase) -> ClientAction {
    match phase {
        ClientPhase::Connecting => ClientAction::Connect,
        ClientPhase::Configuring => ClientAction::Configure(
            SocketOptions { no_delay: true, quick_ack: false },
        ),
        ClientPhase::Sending => ClientAction::SendRequest,
        ClientPhase::Receiving => ClientAction::ReceiveResponse,
        ClientPhase::Done => ClientAction::Finish,
        ClientPhase::Failed(error) => ClientAction::Abort(error),
    }
}

/// How a worker ends: `None` while it still has an operation to perform.
pub open spec fn client_outcome(phase: ClientPhase) -> Option<Result<(), ClientError>> {
    match phase {
        ClientPhase::Done => Some(Ok(())),
        ClientPhase::Failed(error) => Some(Err(error)),
        _ => None,
    }
}

/// One worker's state.
#[derive(Clone, Copy, Debug)]
pub struct ClientSession {
    share: u64,
    completed: u64,
    phase: ClientPhase,
}

impl View for ClientSession {
    type V = ClientModel;

    closed spec fn view(&self) -> ClientModel {
        ClientModel {
            share: self.share as nat,
            completed: self.completed as nat,
            phase: self.phase,
        }
    }
}

impl ClientSession {
    #[verifier::type_invariant]
    spec fn valid(self) -> bool {
        self@.well_formed()
    }

    /// A worker that is to perform `share` exchanges and has not begun.
    pub fn new(share: u64) -> (session: ClientSession)
        ensures
            session@ == client_start(share as nat),
    {
        ClientSession { share, completed: 0, phase: ClientPhase::Connecting }
    }

    /// Exchanges that the worker is to perform.
    pub fn share(&self) -> (share: u64)
        ensures
            share == self@.share,
    {
        self.share
    }

    /// Exchanges that the worker has completed.
    pub fn completed(&self) -> (completed: u64)
        ensures
            completed == self@.completed,
            completed <= self@.share,
    {
        proof {
            use_type_invariant(self);
        }
        self.completed
    }

    /// Where the worker stands.
    pub fn phase(&self) -> (phase: ClientPhase)
        ensures
            phase == self@.phase,
    {
        self.phase
    }

    /// The phase in which a worker with `completed` of `share` exchanges
    /// behind it goes on.
    fn phase_for(share: u64, completed: u64) -> (phase: ClientPhase)
        ensures
            phase == phase_after(share as nat, completed as nat),
    {
        if completed >= share {
            ClientPhase::Done
        } else {
            ClientPhase::Sending
        }
    }

    /// The operation to perform now.
    pub fn action(&self) -> (action: ClientAction)
        ensures
            action == client_action(self@.phase),
    {
        match self.phase {
            ClientPhase::Connecting => ClientAction::Connect,
            ClientPhase::Configuring => ClientAction::Configure(SocketOptions::client()),
            ClientPhase::Sending => ClientAction::SendRequest,
            ClientPhase::Receiving => ClientAction::ReceiveResponse,
            ClientPhase::Done => ClientAction::Finish,
            ClientPhase::Failed(error) => ClientAction::Abort(error),
        }
    }

    /// Takes in how the pending operation ended and names the next one.
    ///
    /// A request is sent only after the response to the one before it has
    /// arrived whole. Any failure ends the worker with an error. Once ended,
    /// a worker stays as it is.
    pub fn handle(&mut self, event: ClientEvent) -> (action: ClientAction)
        ensures
            final(self)@ == client_next(old(self)@, event),
            action == client_action(final(self)@.phase),
    {
        proof {
            use_type_invariant(&*self);
            client_next_keeps_well_formed(self@, event);
        }
        let share = self.share;
        let done = self.completed;
        let (completed, phase) = match (self.phase, event) {
            (ClientPhase::Connecting, ClientEvent::Connected) => (done, ClientPhase::Configuring),
            (ClientPhase::Connecting, ClientEvent::ConnectFailed) => (
                done,
                ClientPhase::Failed(ClientError::Connect),
            ),
            (ClientPhase::Configuring, ClientEvent::Configured) => (
                done,
                Self::phase_for(share, done),
            ),
            (ClientPhase::Configuring, ClientEvent::ConfigureFailed) => (
                done,
                ClientPhase::Failed(ClientError::Configure),
            ),
            (ClientPhase::Sending, ClientEvent::RequestSent) => (done, ClientPhase::Receiving),
            (ClientPhase::Sending, ClientEvent::SendFailed) => (
                done,
                ClientPhase::Failed(ClientError::Send),
            ),
            (ClientPhase::Receiving, ClientEvent::ResponseReceived) => (
                done + 1,
                Self::phase_for(share, done + 1),
            ),
            (ClientPhase::Receiving, ClientEvent::ReceiveFailed) => (
                done,
                ClientPhase::Failed(ClientError::Receive),
            ),
            (ClientPhase::Done, _) => (done, ClientPhase::Done),
            (ClientPhase::Failed(error), _) => (done, ClientPhase::Failed(error)),
            _ => (done, ClientPhase::Failed(ClientError::OutOfOrder)),
        };
        *self = ClientSession { share, completed, phase };
        self.action()
    }

    /// How the worker ended, or `None` while it has an operation to perform.
    pub fn outcome(&self) -> (outcome: Option<Result<(), ClientError>>)
        ensures
            outcome == client_outcome(self@.phase),
    {
        match self.phase {
            ClientPhase::Done => Some(Ok(())),
            ClientPhase::Failed(error) => Some(Err(error)),
            _ => None,
        }
    }
}

/// The worker to which `events` were reported in order, from its start.
pub open spec fn client_run(share: nat, events: Seq<ClientEvent>) -> ClientModel
    decreases events.len(),
{
    if events.len() == 0 {
        client_start(share)
    } else {
        client_next(client_run(share, events.drop_last()), events.last())
    }
}

/// The events of `count` exchanges that all succeed.
pub open spec fn round_trips(count: nat) -> Seq<ClientEvent>
    decreases count,
{
    if count == 0 {
        Seq::empty()
    } else {
        round_trips((count - 1) as nat).push(ClientEvent::RequestSent).push(
            ClientEvent::ResponseReceived,
        )
    }
}

/// The events of a worker that connects, sets its options and then completes
/// `count` exchanges.
pub open spec fn unbroken(count: nat) -> Seq<ClientEvent> {
    seq![ClientEvent::Connected, ClientEvent::Configured] + round_trips(count)
}

/// Every event leaves a well-formed worker well-formed, with its share
/// unchanged and no exchange undone.
pub proof fn client_next_keeps_well_formed(client: ClientModel, event: ClientEvent)
    requires
        client.well_formed(),
    ensures
        client_next(client, event).well_formed(),
        client_next(client, event).share == client.share,
        client.completed <= client_next(client, event).completed <= client.completed + 1,
{
}

/// Whatever events are reported, a worker never performs more exchanges than
/// its share, and it is done only when it has performed exactly its share.
pub proof fn client_never_exceeds_share(share: nat, events: Seq<ClientEvent>)
    ensures
        client_run(share, events).well_formed(),
        client_run(share, events).share == share,
        client_run(share, events).completed <= share,
        client_run(share, events).phase == ClientPhase::Done ==> client_run(
            share,
            events,
        ).completed == share,
    decreases events.len(),
{
    if events.len() > 0 {
        client_never_exceeds_share(share, events.drop_last());
        client_next_keeps_well_formed(client_run(share, events.drop_last()), events.last());
    }
}

/// Running one event more steps the worker by that event.
pub proof fn client_run_push(share: nat, events: Seq<ClientEvent>, event: ClientEvent)
    ensures
        client_run(share, events.push(event)) == client_next(client_run(share, events), event),
{
    assert(events.push(event).drop_last() =~= events);
}

/// A worker whose operations all succeed has completed `count` exchanges
/// after `count` round trips, and goes on sending until its share is done.
pub proof fn unbroken_worker_progress(share: nat, count: nat)
    requires
        count <= share,
    ensures
        client_run(share, unbroken(count)).completed == count,
        client_run(share, unbroken(count)).share == share,
        client_run(share, unbroken(count)).phase == phase_after(share, count),
    decreases count,
{
    if count == 0 {
        let none = Seq::<ClientEvent>::empty();
        assert(unbroken(0) =~= none.push(ClientEvent::Connected).push(ClientEvent::Configured));
        client_run_push(share, none, ClientEvent::Connected);
        client_run_push(share, none.push(ClientEvent::Connected), ClientEvent::Configured);
    } else {
        let earlier = unbroken((count - 1) as nat);
        unbroken_worker_progress(share, (count - 1) as nat);
        assert(unbroken(count) =~= earlier.push(ClientEvent::RequestSent).push(
            ClientEvent::ResponseReceived,
        ));
        client_run_push(share, earlier, ClientEvent::RequestSent);
        client_run_push(
            share,
            earlier.push(ClientEvent::RequestSent),
            ClientEvent::ResponseReceived,
        );
    }
}

/// A worker whose operations all succeed performs exactly its share of
/// exchanges and then finishes.
pub proof fn unbroken_worker_performs_its_share(share: nat)
    ensures
        client_run(share, unbroken(share)).completed == share,
        client_action(client_run(share, unbroken(share)).phase) == ClientAction::Finish,
{
    unbroken_worker_progress(share, share);
}

/// Requests that a worker has sent, out of the events reported to it.
pub open spec fn requests_sent(share: nat, events: Seq<ClientEvent>) -> nat
    decreases events.len(),
{
    if events.len() == 0 {
        0
    } else {
        let earlier = requests_sent(share, events.drop_last());
        if client_run(share, events.drop_last()).phase == ClientPhase::Sending && events.last()
            == ClientEvent::RequestSent {
            earlier + 1
        } else {
            earlier
        }
    }
}

/// Whatever events are reported, a worker has at most one request
/// unanswered, sends a request only when every earlier one is answered, and
/// sends no more requests than its share.
pub proof fn at_most_one_request_is_unanswered(share: nat, events: Seq<ClientEvent>)
    ensures
        ({
            let worker = client_run(share, events);
            let sent = requests_sent(share, events);
            &&& worker.completed <= sent <= worker.completed + 1
            &&& sent <= share
            &&& worker.phase == ClientPhase::Receiving ==> sent == worker.completed + 1
            &&& (worker.phase == ClientPhase::Connecting || worker.phase
                == ClientPhase::Configuring) ==> sent == 0
            &&& client_action(worker.phase) == ClientAction::SendRequest ==> sent
                == worker.completed
            &&& worker.phase == ClientPhase::Done ==> sent == share
        }),
    decreases events.len(),
{
    client_never_exceeds_share(share, events);
    if events.len() > 0 {
        at_most_one_request_is_unanswered(share, events.drop_last());
        client_never_exceeds_share(share, events.drop_last());
    }
}

} // verus!
