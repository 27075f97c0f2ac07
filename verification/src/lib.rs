//! Timer rooms shared over WebSockets: the decision logic of the timer
//! actor, the timer registry, and the per-connection session, each as a
//! state machine with a verified contract.

pub mod config;
pub mod ids;
pub mod message;
pub mod server;
pub mod session;
pub mod timer;
pub mod transport;
