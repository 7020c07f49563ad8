//! The core of an IBC host-side protocol engine: the message-driven
//! state machine that validates and commits packet-lifecycle
//! operations between two chains via light clients, connections and
//! channels. Every handler is specified against a mathematical view
//! of the host store and verified; the host's cryptography and wire
//! libraries stay behind small trusted boundaries.

pub mod acknowledgement;
pub mod bytes;
pub mod chan_handlers;
pub mod channel;
pub mod client;
pub mod client_handlers;
pub mod codec;
pub mod commitment;
pub mod conn_handlers;
pub mod connection;
pub mod context;
pub mod dispatcher;
pub mod error;
pub mod events;
pub mod host;
pub mod identifier;
pub mod kv;
pub mod laws;
pub mod msgs;
pub mod packet;
pub mod packet_handlers;
pub mod path;
pub mod version;
