//! Core of a loopback file-streaming server: request routing, the origin
//! allow-list, byte-range negotiation and the plan by which a file's bytes
//! are read and forwarded, as pure functions with machine-checked contracts.
//!
//! Nothing here touches a socket or a file. The embedding program reads the
//! request, asks the file system, and performs the reads and writes that the
//! functions of this crate decide on.

pub mod cors;
pub mod date;
pub mod decimal;
pub mod laws;
pub mod media;
pub mod range;
pub mod response;
pub mod server;
pub mod text;
pub mod transfer;
