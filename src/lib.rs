//! A broadcast relay: every message a client sends is handed to every other
//! connected client. The registry of live clients, the per-connection
//! decisions and the routing of upgrade requests are verified here; the
//! network plumbing lives outside the library.

mod channel;
pub mod frames;
pub mod laws;
pub mod message;
pub mod registry;
pub mod route;
pub mod session;
