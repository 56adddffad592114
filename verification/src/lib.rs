//! Event system: a registry of handlers per event type and the rules by
//! which one publication walks through them.

pub mod bus;
pub mod config;
pub mod event;
pub mod handler_table;
pub mod laws;
pub mod publish;
