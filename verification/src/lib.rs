//! Core of a recursive stream multiplexer.
//!
//! A multiplexer sits on one reliable, ordered, message-framed transport
//! shared between two endpoints and carries an unbounded set of independent
//! logical substreams over it.  Each substream again behaves as a reliable
//! ordered transport, so a further multiplexer can be stacked on top of a
//! substream to any depth.
//!
//! This crate holds the verified core: the wire codec, the identifier
//! allocator, the keyed one-shot rendezvous channels that synchronize the
//! open and close handshakes, the subscriber registry, and the demultiplex
//! decision logic.  The surrounding runtime (the task that reads frames from
//! the transport, the async waiting, the locking) lives outside the library
//! and drives these functions; it hands frames in as plain bytes and sends
//! the byte frames this library builds.

pub mod multiplex;
pub mod packet;
pub mod rendezvous;
pub mod subscription;
pub mod sync;
