//! The values that sessions, the broker and clients pass to each other.

pub mod delta;
pub mod event;
pub mod program_dto;
pub mod user;
