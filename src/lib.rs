//! A client-side session manager for the Discord gateway protocol, shared by
//! many bots in one process.

pub mod codec;
pub mod event_type;
pub mod json;
pub mod outbound;
pub mod registry;
pub mod session;
pub mod text;
pub mod types;
