//! Core of a Lightning Network node: the channel state machine with its
//! derivations, the routable service address with its two byte forms, and
//! the supervisor that pairs channel daemons with their connections.
//!
//! Every daemon is a pure state machine here: a handler takes one request
//! from one bus and queues what it wants sent; the process around it moves
//! the queue to the transport.

pub mod bytes;
pub mod channel;
pub mod channel_id;
pub mod channeld;
pub mod commitment;
pub mod crypto;
pub mod daemon_id;
pub mod keys;
pub mod lifecycle;
pub mod lnpd;
pub mod message;
pub mod params;
pub mod rpc;

