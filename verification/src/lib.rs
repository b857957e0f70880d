//! The broker of a collaborative code editor: rooms, sessions, and who gets
//! which message.

pub mod code_server;
pub mod code_session;
pub mod delta_log;
pub mod guarantees;
pub mod models;
pub mod random;
pub mod stream_handler;
pub mod text;
