//! Server side of a reverse TCP tunnel.
//!
//! A control client behind a NAT connects to the server and asks it to open
//! a public port. For every visitor of that port the server asks the client
//! to dial back, pairs the visitor with the stream that the client opens,
//! and has the two copied into one another.
//!
//! The library is a set of state machines: every function here decides or
//! computes, and whoever owns the sockets, timers and tasks feeds it what
//! happened and carries out what it answers.
//!
//! - [`wire`], [`address`], [`packet`], [`protocol`]: the control protocol
//!   and its wire form.
//! - [`fallback`]: looking at the first bytes of a stream without losing
//!   them.
//! - [`wait`], [`slot`]: the visitors that wait for their mapper stream.
//! - [`provider`], [`converter`]: the pluggable pieces, among them the
//!   unpackers that tell visitors from mapper streams.
//! - [`server`], [`schedule`], [`outbox`]: the session of one control
//!   client.
//! - [`ext`], [`forward`]: reads, writes and copies that take several steps.

pub mod error;
pub mod wire;
pub mod address;
pub mod packet;
pub mod protocol;
pub mod wait;
pub mod fallback;
pub mod provider;
pub mod slot;
pub mod schedule;
pub mod server;
pub mod converter;
pub mod ext;
pub mod outbox;
pub mod forward;
