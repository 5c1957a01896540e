//! The messages that the engine keeps and passes between its stages.

pub mod message;
