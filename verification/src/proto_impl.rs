//! Endpoint and connection drivers built on the protocol state machine.
pub mod addr;
pub mod connection;
pub mod endpoint;
pub mod result;
pub mod stream;

pub use addr::IpAddr;
pub use connection::{ConnectionEvent, ConnectionImpl};
pub use endpoint::{EndpointEvent, EndpointImpl, EndpointPoller};
pub use result::FFIErrorKind;
