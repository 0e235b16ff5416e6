//! The server side of one connection, as a function from state and event to
//! the next state and the next socket operation.
//!
//! A handler owns one `ServerSession`. It performs the operation the session
//! names, reports how the operation ended, and repeats until the session
//! names `Close` or `Abort`. Sessions share nothing but the read-only
//! `Server` they were made from.

use crate::accept::{AcceptLoop, AcceptState};
use crate::config::{Model, SocketOptions};
use crate::wire::{encode_response, response, response_bytes};
use vstd::prelude::*;

verus! {

/// Why a connection's handler gave up.
#[derive(Clone, Copy, PartialEq, Eq, Structural, Debug)]
pub enum ConnectionError {
    /// A socket option could not be set.
    Configure,
    /// The peer closed the stream after part of a request had arrived.
    TruncatedRequest,
    /// Reading a request failed otherwise.
    Read,
    /// Writing a response failed.
    Write,
    /// The handler reported an event that answers no pending operation.
    OutOfOrder,
}

/// Where a connection stands.
#[derive(Clone, Copy, PartialEq, Eq, Structural, Debug)]
pub enum ServerState {
    /// The socket options are not yet set.
    Configuring,
    /// The next request has not arrived.
    AwaitingRequest,
    /// A request has arrived and its response is not yet written.
    Responding,
    /// The peer closed the stream between two exchanges.
    Closed,
    /// The connection failed.
    Failed(ConnectionError),
}

/// How a socket operation ended.
#[derive(Clone, Copy, PartialEq, Eq, Structural, Debug)]
pub enum ServerEvent {
    /// The socket options are set.
    Configured,
    /// A socket option could not be set.
    ConfigureFailed,
    /// A whole request arrived; it held this byte.
    Request(u8),
    /// The peer closed the stream after `received` bytes of the next
    /// request.
    PeerClosed { received: usize },
    /// The read failed otherwise.
    ReadFailed,
    /// The whole response is written.
    ResponseWritten,
    /// The write failed.
    WriteFailed,
}

/// The socket operation to perform next, or how to end.
#[derive(Clone, Copy, PartialEq, Eq, Structural, Debug)]
pub enum ServerAction {
    /// Set these options on the socket.
    Configure(SocketOptions),
    /// Read one request.
    ReadRequest,
    /// Write the server's response.
    WriteResponse,
    /// End the handler without error.
    Close,
    /// End the handler with this error.
    Abort(ConnectionError),
}

/// The state that follows `state` when `event` is reported.
pub open spec fn server_next(state: ServerState, event: ServerEvent) -> ServerState {
    match (state, event) {
        (ServerState::Configuring, ServerEvent::Configured) => ServerState::AwaitingRequest,
        (ServerState::Configuring, ServerEvent::ConfigureFailed) => ServerState::Failed(
            ConnectionError::Configure,
        ),
        (ServerState::AwaitingRequest, ServerEvent::Request(_)) => ServerState::Responding,
        (ServerState::AwaitingRequest, ServerEvent::PeerClosed { received }) => if received == 0 {
            ServerState::Closed
        } else {
            ServerState::Failed(ConnectionError::TruncatedRequest)
        },
        (ServerState::AwaitingRequest, ServerEvent::ReadFailed) => ServerState::Failed(
            ConnectionError::Read,
        ),
        (ServerState::Responding, ServerEvent::ResponseWritten) => ServerState::AwaitingRequest,
        (ServerState::Responding, ServerEvent::WriteFailed) => ServerState::Failed(
            ConnectionError::Write,
        ),
        (ServerState::Closed, _) => ServerState::Closed,
        (ServerState::Failed(error), _) => ServerState::Failed(error),
        _ => ServerState::Failed(ConnectionError::OutOfOrder),
    }
}

/// What a handler in `state` does next.
pub open spec fn server_action(state: ServerState, options: SocketOptions) -> ServerAction {
    match state {
        ServerState::Configuring => ServerAction::Configure(options),
        ServerState::AwaitingRequest => ServerAction::ReadRequest,
        ServerState::Responding => ServerAction::WriteResponse,
        ServerState::Closed => ServerAction::Close,
        ServerState::Failed(error) => ServerAction::Abort(error),
    }
}

/// The bytes that reach the peer when `event` is reported in `state`.
pub open spec fn server_output(state: ServerState, event: ServerEvent) -> Seq<u8> {
    if state == ServerState::Responding && event == ServerEvent::ResponseWritten {
        response()
    } else {
        Seq::empty()
    }
}

/// How a handler ends: `None` while it still has an operation to perform.
pub open spec fn server_outcome(state: ServerState) -> Option<Result<(), ConnectionError>> {
    match state {
        ServerState::Closed => Some(Ok(())),
        ServerState::Failed(error) => Some(Err(error)),
        _ => None,
    }
}

/// One connection's handler state.
#[derive(Clone, Copy, PartialEq, Eq, Structural, Debug)]
pub struct ServerSession {
    /// Options to set on the socket before the first exchange.
    pub options: SocketOptions,
    /// Where the connection stands.
    pub state: ServerState,
}

impl ServerSession {
    /// A session for a connection that was just accepted.
    pub fn new(options: SocketOptions) -> (session: ServerSession)
        ensures
            session.options == options,
            session.state == ServerState::Configuring,
    {
        ServerSession { options, state: ServerState::Configuring }
    }

    /// The operation to perform now.
    pub fn action(&self) -> (action: ServerAction)
        ensures
            action == server_action(self.state, self.options),
    {
        match self.state {
            ServerState::Configuring => ServerAction::Configure(self.options),
            ServerState::AwaitingRequest => ServerAction::ReadRequest,
            ServerState::Responding => ServerAction::WriteResponse,
            ServerState::Closed => ServerAction::Close,
            ServerState::Failed(error) => ServerAction::Abort(error),
        }
    }

    /// Takes in how the pending operation ended and names the next one.
    ///
    /// A request is answered whatever byte it holds. The peer closing the
    /// stream before any byte of a request ends the session cleanly; every
    /// other failure ends it with an error. Once ended, a session stays as
    /// it is.
    pub fn handle(&mut self, event: ServerEvent) -> (action: ServerAction)
        ensures
            final(self).options == old(self).options,
            final(self).state == server_next(old(self).state, event),
            action == server_action(final(self).state, final(self).options),
    {
        let next = match (self.state, event) {
            (ServerState::Configuring, ServerEvent::Configured) => ServerState::AwaitingRequest,
            (ServerState::Configuring, ServerEvent::ConfigureFailed) => ServerState::Failed(
                ConnectionError::Configure,
            ),
            (ServerState::AwaitingRequest, ServerEvent::Request(_)) => ServerState::Responding,
            (ServerState::AwaitingRequest, ServerEvent::PeerClosed { received }) => {
                if received == 0 {
                    ServerState::Closed
                } else {
                    ServerState::Failed(ConnectionError::TruncatedRequest)
                }
            },
            (ServerState::AwaitingRequest, ServerEvent::ReadFailed) => ServerState::Failed(
                ConnectionError::Read,
            ),
            (ServerState::Responding, ServerEvent::ResponseWritten) => ServerState::AwaitingRequest,
            (ServerState::Responding, ServerEvent::WriteFailed) => ServerState::Failed(
                ConnectionError::Write,
            ),
            (ServerState::Closed, _) => ServerState::Closed,
            (ServerState::Failed(error), _) => ServerState::Failed(error),
            _ => ServerState::Failed(ConnectionError::OutOfOrder),
        };
        self.state = next;
        self.action()
    }

    /// How the handler ended, or `None` while it has an operation to perform.
    pub fn outcome(&self) -> (outcome: Option<Result<(), ConnectionError>>)
        ensures
            outcome == server_outcome(self.state),
    {
        match self.state {
            ServerState::Closed => Some(Ok(())),
            ServerState::Failed(error) => Some(Err(error)),
            _ => None,
        }
    }
}

/// One server instance: its model, and what its connections share, namely
/// the socket options and the response, built once and never changed.
pub struct Server {
    model: Model,
    options: SocketOptions,
    response: Vec<u8>,
}

impl Server {
    #[verifier::type_invariant]
    spec fn well_formed(self) -> bool {
        self.response@ == response()
    }

    /// The server's concurrency model.
    pub closed spec fn concurrency(self) -> Model {
        self.model
    }

    /// The options that this server sets on each accepted socket.
    pub closed spec fn socket_options(self) -> SocketOptions {
        self.options
    }

    /// A server instance of the given model. `quick_ack` says whether its
    /// connections ask for undelayed acknowledgments.
    pub fn new(model: Model, quick_ack: bool) -> (server: Server)
        ensures
            server.concurrency() == model,
            server.socket_options() == (SocketOptions { no_delay: true, quick_ack }),
    {
        Server { model, options: SocketOptions::server(quick_ack), response: encode_response() }
    }

    /// The server's concurrency model.
    pub fn model(&self) -> (model: Model)
        ensures
            model == self.concurrency(),
    {
        self.model
    }

    /// The options that this server sets on each accepted socket.
    pub fn options(&self) -> (options: SocketOptions)
        ensures
            options == self.socket_options(),
    {
        self.options
    }

    /// The bytes to write for `ServerAction::WriteResponse`: the same for
    /// every server, whatever its model and options.
    pub fn response(&self) -> (bytes: &[u8])
        ensures
            bytes@ == response(),
    {
        proof {
            use_type_invariant(self);
        }
        self.response.as_slice()
    }

    /// The accept loop of this server, listening.
    pub fn accept_loop(&self) -> (accept: AcceptLoop)
        ensures
            accept.model == self.concurrency(),
            accept.state == AcceptState::Listening,
    {
        AcceptLoop::new(self.model)
    }

    /// A session for a connection that this server just accepted.
    pub fn session(&self) -> (session: ServerSession)
        ensures
            session.options == self.socket_options(),
            session.state == ServerState::Configuring,
    {
        ServerSession::new(self.options)
    }
}

/// What a connection has come to: its state and every byte written to the
/// peer so far.
pub struct ServerTrace {
    pub state: ServerState,
    pub written: Seq<u8>,
}

/// A connection that was just accepted.
pub open spec fn server_start() -> ServerTrace {
    ServerTrace { state: ServerState::Configuring, written: Seq::empty() }
}

/// The trace after one more event.
pub open spec fn server_extend(trace: ServerTrace, event: ServerEvent) -> ServerTrace {
    ServerTrace {
        state: server_next(trace.state, event),
        written: trace.written + server_output(trace.state, event),
    }
}

/// The trace of a connection to which `events` were reported in order.
pub open spec fn server_run(events: Seq<ServerEvent>) -> ServerTrace
    decreases events.len(),
{
    if events.len() == 0 {
        server_start()
    } else {
        server_extend(server_run(events.drop_last()), events.last())
    }
}

/// The events of one complete exchange per byte of `requests`.
pub open spec fn exchanges(requests: Seq<u8>) -> Seq<ServerEvent>
    decreases requests.len(),
{
    if requests.len() == 0 {
        Seq::empty()
    } else {
        exchanges(requests.drop_last()).push(ServerEvent::Request(requests.last())).push(
            ServerEvent::ResponseWritten,
        )
    }
}

/// The events of a connection that is configured and then completes one
/// exchange per byte of `requests`.
pub open spec fn served(requests: Seq<u8>) -> Seq<ServerEvent> {
    seq![ServerEvent::Configured] + exchanges(requests)
}

/// `count` responses, one after the other.
pub open spec fn responses(count: nat) -> Seq<u8>
    decreases count,
{
    if count == 0 {
        Seq::empty()
    } else {
        responses((count - 1) as nat) + response()
    }
}

/// Running one event more extends the trace by that event.
pub proof fn server_run_push(events: Seq<ServerEvent>, event: ServerEvent)
    ensures
        server_run(events.push(event)) == server_extend(server_run(events), event),
{
    assert(events.push(event).drop_last() =~= events);
}

/// A request is answered with the response whatever byte it holds, and the
/// connection then awaits the next request: after any number of complete
/// exchanges the peer has been sent that many responses and nothing else.
pub proof fn exchanges_are_answered(requests: Seq<u8>)
    ensures
        server_run(served(requests)).state == ServerState::AwaitingRequest,
        server_run(served(requests)).written == responses(requests.len()),
    decreases requests.len(),
{
    if requests.len() == 0 {
        assert(served(requests) =~= Seq::<ServerEvent>::empty().push(ServerEvent::Configured));
        server_run_push(Seq::empty(), ServerEvent::Configured);
        assert(server_run(served(requests)).written =~= responses(0));
    } else {
        let earlier = requests.drop_last();
        let request = ServerEvent::Request(requests.last());
        exchanges_are_answered(earlier);
        assert(served(requests) =~= served(earlier).push(request).push(
            ServerEvent::ResponseWritten,
        ));
        server_run_push(served(earlier), request);
        server_run_push(served(earlier).push(request), ServerEvent::ResponseWritten);
        assert(server_run(served(requests)).written =~= responses(requests.len()));
    }
}

/// One exchange puts the nine response bytes on the wire, for every request
/// byte.
pub proof fn one_exchange_writes_the_response(request: u8)
    ensures
        server_run(served(seq![request])).written == seq![
            0x2Bu8,
            0x04u8,
            0x00u8,
            0x00u8,
            0x00u8,
            0x70u8,
            0x6Fu8,
            0x6Eu8,
            0x67u8,
        ],
{
    exchanges_are_answered(seq![request]);
    response_bytes();
    reveal_with_fuel(responses, 2);
    assert(responses(1) =~= response());
}

/// A peer that closes the stream after any number of complete exchanges,
/// none included, ends the handler without error.
pub proof fn close_between_exchanges_is_clean(requests: Seq<u8>)
    ensures
        server_outcome(
            server_run(served(requests).push(ServerEvent::PeerClosed { received: 0 })).state,
        ) == Some(Ok::<(), ConnectionError>(())),
        server_run(served(requests).push(ServerEvent::PeerClosed { received: 0 })).written
            == responses(requests.len()),
{
    exchanges_are_answered(requests);
    server_run_push(served(requests), ServerEvent::PeerClosed { received: 0 });
    assert(server_run(served(requests).push(ServerEvent::PeerClosed { received: 0 })).written
        =~= responses(requests.len()));
}

/// A peer that closes the stream while a request is awaited ends the handler
/// without error exactly if no byte of that request had arrived; otherwise
/// the handler fails with `TruncatedRequest`.
pub proof fn close_is_clean_only_at_a_boundary(requests: Seq<u8>, received: usize)
    ensures
        ({
            let end = server_run(served(requests).push(ServerEvent::PeerClosed { received })).state;
            &&& received == 0 <==> end == ServerState::Closed
            &&& received != 0 <==> end == ServerState::Failed(ConnectionError::TruncatedRequest)
        }),
{
    exchanges_are_answered(requests);
    server_run_push(served(requests), ServerEvent::PeerClosed { received });
}

/// A handler ends without error only when the peer closes the stream while
/// a request is awaited and none of its bytes has arrived. Every other way
/// for a handler to end is an error.
pub proof fn handler_ends_cleanly_only_at_end_of_stream(state: ServerState, event: ServerEvent)
    requires
        server_outcome(state) is None,
    ensures
        server_next(state, event) == ServerState::Closed <==> state == ServerState::AwaitingRequest
            && event == (ServerEvent::PeerClosed { received: 0 }),
        server_outcome(server_next(state, event)) is Some ==> server_next(state, event)
            == ServerState::Closed || server_next(state, event) is Failed,
{
}

/// A handler that has ended stays as it is and writes nothing more.
pub proof fn ended_handler_stays_ended(state: ServerState, event: ServerEvent)
    requires
        server_outcome(state) is Some,
    ensures
        server_next(state, event) == state,
        server_output(state, event) == Seq::<u8>::empty(),
{
}

/// Requests that a connection has read, out of the events reported to it.
pub open spec fn requests_read(events: Seq<ServerEvent>) -> nat
    decreases events.len(),
{
    if events.len() == 0 {
        0
    } else {
        let earlier = requests_read(events.drop_last());
        if server_run(events.drop_last()).state == ServerState::AwaitingRequest
            && events.last() is Request {
            earlier + 1
        } else {
            earlier
        }
    }
}

/// Responses that a connection has written, out of the events reported to
/// it.
pub open spec fn responses_written(events: Seq<ServerEvent>) -> nat
    decreases events.len(),
{
    if events.len() == 0 {
        0
    } else {
        let earlier = responses_written(events.drop_last());
        if server_run(events.drop_last()).state == ServerState::Responding && events.last()
            == ServerEvent::ResponseWritten {
            earlier + 1
        } else {
            earlier
        }
    }
}

/// Whatever events are reported, the bytes written are whole responses, one
/// for each response the connection has written.
pub proof fn written_is_whole_responses(events: Seq<ServerEvent>)
    ensures
        server_run(events).written == responses(responses_written(events)),
    decreases events.len(),
{
    if events.len() == 0 {
        assert(server_run(events).written =~= responses(0));
    } else {
        written_is_whole_responses(events.drop_last());
        assert(server_run(events).written =~= responses(responses_written(events)));
    }
}

/// Whatever events are reported, reading and writing alternate: a response
/// is written only for a request that was read, and no request is read
/// while one is unanswered.
pub proof fn every_response_answers_a_request(events: Seq<ServerEvent>)
    ensures
        responses_written(events) <= requests_read(events) <= responses_written(events) + 1,
        server_run(events).state == ServerState::Responding ==> requests_read(events)
            == responses_written(events) + 1,
        server_run(events).state == ServerState::AwaitingRequest || server_run(events).state
            == ServerState::Closed ==> requests_read(events) == responses_written(events),
        server_run(events).state == ServerState::Configuring ==> requests_read(events) == 0,
    decreases events.len(),
{
    if events.len() > 0 {
        every_response_answers_a_request(events.drop_last());
    }
}

} // verus!
