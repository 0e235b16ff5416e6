//! A whole server instance: one accept loop and the connections it has
//! accepted, driven by one interleaved sequence of events.
//!
//! Nothing here runs. The module states what the accept loop and the
//! sessions of the other modules amount to when they run side by side, in
//! whatever order their events fall: each connection fares as if it were
//! alone, and none can stop the accept loop.

use crate::accept::{accept_step, AcceptAction, AcceptEvent, AcceptState};
use crate::config::Model;
use crate::server::{
    responses, responses_written, server_extend, server_run, server_start,
    written_is_whole_responses, ServerEvent, ServerTrace,
};
use vstd::prelude::*;

verus! {

/// An event of a server instance.
pub enum InstanceEvent {
    /// An attempt to accept a connection ended.
    Accept(AcceptEvent),
    /// A socket operation of the connection accepted as number `id` ended.
    Connection { id: nat, event: ServerEvent },
}

/// A server instance. Connections are numbered in the order in which they
/// were accepted, from zero.
pub struct Instance {
    /// The server's concurrency model.
    pub model: Model,
    /// Where the accept loop stands.
    pub accept: AcceptState,
    /// Connections accepted so far.
    pub accepted: nat,
    /// The trace of each accepted connection.
    pub connections: Map<nat, ServerTrace>,
}

/// An instance that just began to listen.
pub open spec fn instance_start(model: Model) -> Instance {
    Instance { model, accept: AcceptState::Listening, accepted: 0, connections: Map::empty() }
}

/// The instance that follows `instance` after `event`. An event of a
/// connection that was never accepted changes nothing.
pub open spec fn instance_next(instance: Instance, event: InstanceEvent) -> Instance {
    match event {
        InstanceEvent::Accept(attempt) => {
            let (accept, action) = accept_step(instance.model, instance.accept, attempt);
            if action == AcceptAction::Serve {
                Instance {
                    accept,
                    accepted: instance.accepted + 1,
                    connections: instance.connections.insert(instance.accepted, server_start()),
                    ..instance
                }
            } else {
                Instance { accept, ..instance }
            }
        },
        InstanceEvent::Connection { id, event } => {
            if instance.connections.contains_key(id) {
                Instance {
                    connections: instance.connections.insert(
                        id,
                        server_extend(instance.connections[id], event),
                    ),
                    ..instance
                }
            } else {
                instance
            }
        },
    }
}

/// The instance after `events`, from its start.
pub open spec fn instance_run(model: Model, events: Seq<InstanceEvent>) -> Instance
    decreases events.len(),
{
    if events.len() == 0 {
        instance_start(model)
    } else {
        instance_next(instance_run(model, events.drop_last()), events.last())
    }
}

/// The events of connection `id` among `events`, in order: those reported
/// once it was accepted.
pub open spec fn events_of(model: Model, events: Seq<InstanceEvent>, id: nat) -> Seq<
    ServerEvent,
>
    decreases events.len(),
{
    if events.len() == 0 {
        Seq::empty()
    } else {
        let earlier = events_of(model, events.drop_last(), id);
        match events.last() {
            InstanceEvent::Connection { id: other, event } => {
                if other == id && instance_run(model, events.drop_last()).connections.contains_key(
                    id,
                ) {
                    earlier.push(event)
                } else {
                    earlier
                }
            },
            InstanceEvent::Accept(_) => earlier,
        }
    }
}

/// The attempts to accept among `events`, in order.
pub open spec fn attempts_of(events: Seq<InstanceEvent>) -> Seq<AcceptEvent>
    decreases events.len(),
{
    if events.len() == 0 {
        Seq::empty()
    } else {
        let earlier = attempts_of(events.drop_last());
        match events.last() {
            InstanceEvent::Accept(attempt) => earlier.push(attempt),
            InstanceEvent::Connection { .. } => earlier,
        }
    }
}

/// The accept loop after `attempts`, from its start.
pub open spec fn accept_run(model: Model, attempts: Seq<AcceptEvent>) -> AcceptState
    decreases attempts.len(),
{
    if attempts.len() == 0 {
        AcceptState::Listening
    } else {
        accept_step(model, accept_run(model, attempts.drop_last()), attempts.last()).0
    }
}

/// An event of one connection leaves the accept loop and every other
/// connection as they were, whatever the event: a handler's failure ends
/// that handler only.
pub proof fn connection_event_touches_one_connection(
    instance: Instance,
    id: nat,
    event: ServerEvent,
    other: nat,
)
    requires
        other != id,
    ensures
        ({
            let next = instance_next(instance, InstanceEvent::Connection { id, event });
            &&& next.accept == instance.accept
            &&& next.accepted == instance.accepted
            &&& next.connections.contains_key(other) == instance.connections.contains_key(other)
            &&& next.connections.contains_key(other) ==> next.connections[other]
                == instance.connections[other]
        }),
{
}

/// The connections of an instance are those numbered below the count of
/// accepted ones, and a connection that is not among them has no events.
proof fn connections_are_numbered(model: Model, events: Seq<InstanceEvent>, id: nat)
    ensures
        instance_run(model, events).connections.contains_key(id) <==> id < instance_run(
            model,
            events,
        ).accepted,
        !instance_run(model, events).connections.contains_key(id) ==> events_of(model, events, id)
            == Seq::<ServerEvent>::empty(),
        instance_run(model, events).model == model,
    decreases events.len(),
{
    if events.len() > 0 {
        let before = instance_run(model, events.drop_last());
        connections_are_numbered(model, events.drop_last(), id);
        connections_are_numbered(model, events.drop_last(), before.accepted);
        match events.last() {
            InstanceEvent::Connection { id: other, .. } => {
                connections_are_numbered(model, events.drop_last(), other);
            },
            InstanceEvent::Accept(_) => {},
        }
    }
}

/// However the events of an instance interleave, each connection comes to
/// what it would have come to had its own events been the only ones.
pub proof fn connections_are_isolated(model: Model, events: Seq<InstanceEvent>, id: nat)
    requires
        instance_run(model, events).connections.contains_key(id),
    ensures
        instance_run(model, events).connections[id] == server_run(events_of(model, events, id)),
    decreases events.len(),
{
    if events.len() > 0 {
        let earlier = events.drop_last();
        let before = instance_run(model, earlier);
        connections_are_numbered(model, earlier, id);
        connections_are_numbered(model, earlier, before.accepted);
        if before.connections.contains_key(id) {
            connections_are_isolated(model, earlier, id);
        }
        match events.last() {
            InstanceEvent::Connection { id: other, .. } => {
                connections_are_numbered(model, earlier, other);
                if other == id {
                    assert(events_of(model, events, id).drop_last() =~= events_of(
                        model,
                        earlier,
                        id,
                    ));
                }
            },
            InstanceEvent::Accept(_) => {},
        }
    }
}

/// However the events of an instance interleave, what a connection's peer
/// has been sent is a whole number of responses and nothing else, one for
/// each response written on that connection: no byte meant for one
/// connection reaches another.
pub proof fn connections_are_sent_whole_responses(
    model: Model,
    events: Seq<InstanceEvent>,
    id: nat,
)
    requires
        instance_run(model, events).connections.contains_key(id),
    ensures
        instance_run(model, events).connections[id].written == responses(
            responses_written(events_of(model, events, id)),
        ),
{
    connections_are_isolated(model, events, id);
    written_is_whole_responses(events_of(model, events, id));
}

/// Both models come to the same connections from the same events: what a
/// peer is sent does not depend on how the server runs its handlers.
pub proof fn models_serve_alike(events: Seq<InstanceEvent>)
    ensures
        instance_run(Model::ThreadPerConnection, events).connections == instance_run(
            Model::EventLoop,
            events,
        ).connections,
        instance_run(Model::ThreadPerConnection, events).accept == instance_run(
            Model::EventLoop,
            events,
        ).accept,
        instance_run(Model::ThreadPerConnection, events).accepted == instance_run(
            Model::EventLoop,
            events,
        ).accepted,
    decreases events.len(),
{
    if events.len() > 0 {
        models_serve_alike(events.drop_last());
    }
}

/// The accept loop comes to what it would have come to had there been no
/// connection events at all: it stops only when accepting fails.
pub proof fn accept_loop_hears_only_attempts(model: Model, events: Seq<InstanceEvent>)
    ensures
        instance_run(model, events).accept == accept_run(model, attempts_of(events)),
    decreases events.len(),
{
    if events.len() > 0 {
        accept_loop_hears_only_attempts(model, events.drop_last());
        connections_are_numbered(model, events.drop_last(), 0);
        match events.last() {
            InstanceEvent::Accept(_) => {
                assert(attempts_of(events).drop_last() =~= attempts_of(events.drop_last()));
            },
            InstanceEvent::Connection { .. } => {},
        }
    }
}

} // verus!
