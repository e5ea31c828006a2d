//! Registration of borrowed raw sockets with a readiness registry.
//!
//! A [`SourceSocket`] wraps a non-owning reference to a raw socket handle and
//! forwards `register`, `reregister` and `deregister` to a [`Registry`], which
//! keeps one registration (token and interest set) per handle and turns
//! readiness reports for a handle into tagged events.
pub mod interest;
pub mod laws;
pub mod registry;
pub mod source_socket;

pub use interest::{Interest, Token};
pub use registry::{Event, RawSocket, Registration, RegistrationError, Registry};
pub use source_socket::SourceSocket;
