//! The terminal bridge of alleycat: the framed wire protocol that a client
//! and a PTY-backed agent speak, the session that runs over it, and the static
//! metadata of the agents on offer.

pub mod agent_manifest;
pub mod error;
pub mod launch;
pub mod payload;
pub mod protocol;
pub mod session;
pub mod session_laws;
pub mod session_steps;
pub mod shutdown;
pub mod text;
pub mod wire;
pub mod wire_laws;
