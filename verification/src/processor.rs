//! Processor components' configuration models and decision logic.

pub mod sql;
