//! Input components' configuration models and decision logic.

pub mod http;
pub mod modbus;
pub mod mqtt;
pub mod redis;
pub mod sql;
