//! A sans-I/O QUIC endpoint runtime for foreign hosts.
//!
//! The protocol state machine of `quinn-proto` is driven forward by inbound
//! datagrams, timer deadlines and host calls. Everything the host has to be told
//! (transmits, stream events, lifecycle transitions) is handed back as a list of
//! [`ffi::Callback`] values, which the binding layer dispatches to the functions the
//! host registered.
pub mod ffi;
pub mod proto;
pub mod proto_impl;
pub mod sync;
