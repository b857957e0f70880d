//! The broker: the one owner of every room's membership.

pub mod code_server;
pub mod guarantees;
pub mod handlers;
pub mod registry;
pub mod room;
