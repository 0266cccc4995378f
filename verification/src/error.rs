//! The engine's error taxonomy and the runtime policies attached to it.

use vstd::prelude::*;
use vstd::string::StringExecFns;

verus! {

/// Error raised anywhere in the stream processing engine.
///
/// Each variant corresponds to one kind in the engine's error taxonomy; the
/// runtime chooses its reaction (reconnect, drop the batch, shut down, ...)
/// from the variant alone, never from the message text.
#[derive(Debug)]
pub enum Error {
    /// An I/O failure outside the engine's control.
    Io(String),
    /// A value could not be serialized or deserialized.
    Serialization(String),
    /// Misconfiguration; fatal at startup, terminates the ingest at runtime.
    Config(String),
    /// Malformed data on the read path; the batch is dropped.
    Read(String),
    /// A processor failed; the batch is dropped and never acknowledged.
    Process(String),
    /// An external link could not be established or used.
    Connection(String),
    /// Transient link loss; inputs reconnect, outputs retry internally.
    Disconnection,
    /// An operation exceeded its deadline.
    Timeout,
    /// Everything else.
    Unknown(String),
    /// The source is exhausted; a clean shutdown signal.
    EOF,
}

impl Error {
    /// A human-readable rendering of the error, prefix first.
    pub fn message(&self) -> (r: String)
        ensures
            r@ == self.spec_message(),
    {
        match self {
            Error::Io(m) => String::from_str("IO error: ").concat(m.as_str()),
            Error::Serialization(m) => String::from_str("Serialization error: ").concat(m.as_str()),
            Error::Config(m) => String::from_str("Configuration error: ").concat(m.as_str()),
            Error::Read(m) => String::from_str("Read error: ").concat(m.as_str()),
            Error::Process(m) => String::from_str("Process errors: ").concat(m.as_str()),
            Error::Connection(m) => String::from_str("Connection error: ").concat(m.as_str()),
            Error::Disconnection => String::from_str("Connection lost"),
            Error::Timeout => String::from_str("Timeout error"),
            Error::Unknown(m) => String::from_str("Unknown error: ").concat(m.as_str()),
            Error::EOF => String::from_str("EOF"),
        }
    }

    /// What `message` returns, spelled out per variant.
    pub open spec fn spec_message(self) -> Seq<char> {
        match self {
            Error::Io(m) => "IO error: "@ + m@,
            Error::Serialization(m) => "Serialization error: "@ + m@,
            Error::Config(m) => "Configuration error: "@ + m@,
            Error::Read(m) => "Read error: "@ + m@,
            Error::Process(m) => "Process errors: "@ + m@,
            Error::Connection(m) => "Connection error: "@ + m@,
            Error::Disconnection => "Connection lost"@,
            Error::Timeout => "Timeout error"@,
            Error::Unknown(m) => "Unknown error: "@ + m@,
            Error::EOF => "EOF"@,
        }
    }
}

} // verus!
