//! The core of a local-to-remote port forwarder over one authenticated SSH
//! session: startup decisions, the accept loop with its shutdown signal, and
//! the bidirectional byte relay of each connection, each as a verified state
//! machine that a driver runs against real sockets.

pub mod acceptor;
pub mod config;
pub mod error;
pub mod paths;
pub mod pump;
pub mod relay;
pub mod scp;
pub mod session;
