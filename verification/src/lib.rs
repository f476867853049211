//! A verified core for a small audio-sample streaming client.
//!
//! The library decodes nothing and opens no sockets itself: it turns plain
//! decoded PCM frames into a normalized mono sample buffer, derives a
//! per-cycle transmission capacity from a handshake response, and renders the
//! line-oriented wire protocol, all as verified functions over plain values.

pub mod errors;
pub mod extract;
pub mod negotiate;
pub mod session;
pub mod wire;
