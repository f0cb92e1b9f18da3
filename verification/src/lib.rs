//! Client front-end for a key-value store that speaks a RESP-style protocol:
//! the typed model of server replies, and the bootstrap that turns a
//! connection URI into a validated endpoint and selected database.

pub mod client;
pub mod endpoint;
pub mod enums;
pub mod text;
pub mod uri;
