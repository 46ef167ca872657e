//! Relay of inbound message payloads to a tabular warehouse's streaming-insert
//! endpoint: the addressing, classification and wording rules of the relay,
//! stated over sequences of characters and proved.
//!
//! The crate performs no I/O. A host program sends what
//! [`forwarder::Forwarder::outbound_request`] describes and hands each result
//! of the exchange to [`forwarder::after_send`] and [`forwarder::after_body`].

pub mod forwarder;
pub mod probe;
pub mod status;
pub mod text;
pub mod url;

pub use forwarder::{
    after_body, after_send, response_text, ForwardRequest, Forwarder, InsertOutcome,
    OutboundRequest,
};
pub use probe::connection_address;
pub use status::HttpStatus;
