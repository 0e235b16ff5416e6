//! What is fixed before a run: the two concurrency models, the socket options
//! of each side, the sweep of connection counts and the standalone defaults.

use vstd::prelude::*;

verus! {

/// How a server, and the clients that load it, run their connections.
#[derive(Clone, Copy, PartialEq, Eq, Structural, Debug)]
pub enum Model {
    /// One blocking operating-system thread per connection.
    ThreadPerConnection,
    /// One task per connection on a shared pool of worker threads.
    EventLoop,
}

/// Options set once on a connection's socket before any exchange.
#[derive(Clone, Copy, PartialEq, Eq, Structural, Debug)]
pub struct SocketOptions {
    /// Send small writes at once instead of coalescing them.
    pub no_delay: bool,
    /// Ask the peer's acknowledgments not to be delayed.
    pub quick_ack: bool,
}

impl SocketOptions {
    /// Options of a client socket: no send coalescing, nothing else.
    pub fn client() -> (o: SocketOptions)
        ensures
            o == (SocketOptions { no_delay: true, quick_ack: false }),
    {
        SocketOptions { no_delay: true, quick_ack: false }
    }

    /// Options of a server-side socket: no send coalescing, and the
    /// acknowledgment hint if the server instance asks for it.
    pub fn server(quick_ack: bool) -> (o: SocketOptions)
        ensures
            o == (SocketOptions { no_delay: true, quick_ack }),
    {
        SocketOptions { no_delay: true, quick_ack }
    }
}

/// Port on which the standalone server listens and the standalone driver
/// connects.
pub const STANDALONE_PORT: u16 = 3000;

/// Exchanges that the standalone driver shares out among its clients.
pub const STANDALONE_EXCHANGES: u64 = 1_000_000;

/// Clients that the standalone driver starts when none are asked for.
pub const DEFAULT_CLIENTS: u32 = 1;

/// The connection counts at which each model is measured, in order.
pub open spec fn sweep() -> Seq<u32> {
    seq![1u32, 2u32, 4u32, 8u32, 16u32, 32u32, 64u32]
}

/// The connection counts at which each model is measured, in order.
pub fn connection_sweep() -> (points: Vec<u32>)
    ensures
        points@ == sweep(),
{
    let mut points: Vec<u32> = Vec::new();
    points.push(1);
    points.push(2);
    points.push(4);
    points.push(8);
    points.push(16);
    points.push(32);
    points.push(64);
    assert(points@ =~= sweep());
    points
}

} // verus!
