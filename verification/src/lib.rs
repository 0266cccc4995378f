//! A stream-processing engine core: one input feeds a pool of workers that run
//! an ordered pipeline of processors, and a single sink writes the results,
//! acknowledging each batch only after every write for it succeeded.
//!
//! The crate models the data plane (message batches, acknowledgements), the
//! control plane (registries, configuration binding, the stream runtime's
//! decisions), and the optional coalescing buffer.

pub mod ack;
pub mod batch;
pub mod buffer;
pub mod config;
pub mod error;
pub mod input;
pub mod json;
pub mod output;
pub mod pipeline;
pub mod processor;
pub mod registry;
pub mod runtime;
pub mod stream;
pub mod text;

pub use error::Error;
