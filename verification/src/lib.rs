//! A server that answers plain HTTP and gRPC on the same listeners.
//!
//! The verified part decides where each request goes, how the readiness and
//! the results of the two inner services combine, how the per-connection
//! service is assembled, and how the TLS acceptor is configured.

pub mod greeter;
pub mod hybrid;
pub mod logging;
pub mod routing;
pub mod supervisor;
pub mod tls;
