//! A capability-gated publish/subscribe relay: identities that carry a role
//! bit, sealed tokens that prove them, a registry of live readers and the
//! decisions of a session.

pub mod access;
pub mod cipher;
pub mod registry;
pub mod websocket;
