//! Connection-establishment gateway for a multi-user real-time collaboration
//! service.
//!
//! The crate turns a token-bearing connection request into a live,
//! authenticated session: it verifies the bearer credential, resolves the
//! external (string) identity to an internal (numeric) one, builds a
//! per-connection [`session::ClientSession`] with heartbeat-based liveness
//! monitoring and a bounded frame size, and drives that session's lifecycle
//! until it is closed and deregistered from the collaboration hub.

pub mod auth;
pub mod gateway;
pub mod resolve;
pub mod session;
