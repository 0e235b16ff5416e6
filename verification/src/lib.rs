//! A one-byte ping protocol and the bookkeeping of a load test against it.
//!
//! The crate performs no I/O and reads no clock. It holds what a server, a
//! load-generating client and a benchmark decide, and leaves it to the
//! caller to carry the decisions out:
//!
//! - `wire`: the request and the fixed nine-byte response;
//! - `server`: a server instance and the handler of one connection, as a
//!   function from state and event to the next socket operation;
//! - `client`: the same for a worker that performs its share of exchanges;
//! - `accept`: what the accept loop does with each accepted connection and
//!   with a failure to accept;
//! - `instance`: what accept loop and handlers amount to side by side;
//! - `harness`: how a trial's exchanges are shared out among its
//!   connections and how the workers' results become the trial's;
//! - `elapsed`: spans of time in whole nanoseconds, their sum and mean;
//! - `config`: the models, the socket options and the fixed numbers.

pub mod accept;
pub mod client;
pub mod config;
pub mod elapsed;
pub mod harness;
pub mod instance;
pub mod server;
pub mod wire;
