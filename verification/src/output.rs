//! Output components' configuration models and decision logic.

pub mod http;
pub mod kafka;
pub mod sql;
