//! Session planning for a remote shell or port-forwarding tunnel that is
//! opened through a cloud session broker.
//!
//! The library classifies a request into a session mode, allocates the local
//! port of a forwarding session, builds the broker call, renders the
//! arguments of the helper process that carries the stream, and holds the
//! decision table of the duplex relay.

pub mod mode;
pub mod host;
pub mod request;
pub mod port;
pub mod decimal;
pub mod broker;
pub mod session;
pub mod plugin;
pub mod relay;
