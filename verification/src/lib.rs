//! Event model and normalization pipeline of an analytics client.
//!
//! A caller describes an event as a [`message::MessageKind`]. The library
//! checks the identity rule, resolves the event's timestamps and turns it into
//! the canonical payload, a [`rudder_message::RudderMessage`], together with
//! the address and credentials it is to be posted with. Transport is the
//! host's business: nothing here performs I/O.

pub mod client;
pub mod errors;
pub mod json;
pub mod message;
pub mod rudder_message;
pub mod text;
pub mod timestamp;
pub mod utils;
