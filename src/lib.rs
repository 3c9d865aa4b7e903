//! Core of an extension host: frame reassembly for the duplex transport,
//! the live extension registry and manifest admission, the reply
//! correlation table, command classification and dispatch planning, and the
//! bounded socket proxy offered to sandboxed modules.

pub mod bridge;
pub mod commands;
pub mod framing;
pub mod registry;
pub mod replies;
pub mod router;
pub mod sockets;
mod text;
