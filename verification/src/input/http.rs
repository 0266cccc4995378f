//! The HTTP input: an endpoint that queues posted documents.
//!
//! The embedding runs the HTTP server; each accepted request body is handed
//! to `enqueue` as a batch. Reads drain the queue oldest first. The queue,
//! the connected flag and every read decision are fixed here.

use crate::batch::MessageBatch;
use crate::error::Error;
use crate::json::{json_as_str, json_get};
use crate::registry::Registries;
use vstd::prelude::*;
use vstd::string::StringExecFns;

verus! {

/// HTTP input configuration.
pub struct HttpInputConfig {
    /// Listening address.
    pub address: String,
    /// Path accepting posts.
    pub path: String,
    /// Whether CORS is enabled.
    pub cors_enabled: Option<bool>,
}

/// Validate the fields an HTTP input is configured with: the listening
/// address and the path must both be present strings; CORS is optional.
/// Anything else is a `Config` error.
pub fn http_input_config_from_parts(
    address: Option<String>,
    path: Option<String>,
    cors_enabled: Option<bool>,
) -> (r: Result<HttpInputConfig, Error>)
    ensures
        r is Ok <==> (address is Some && path is Some),
        r matches Ok(cfg) ==> {
            &&& address matches Some(a) && cfg.address == a
            &&& path matches Some(p) && cfg.path == p
            &&& cfg.cors_enabled == cors_enabled
        },
        r matches Err(e) ==> e is Config,
{
    match (address, path) {
        (Some(address), Some(path)) => Ok(HttpInputConfig { address, path, cors_enabled }),
        _ => Err(Error::Config(String::from_str("Invalid address"))),
    }
}

/// Bind an HTTP input configuration from its raw fragment: the fragment must
/// be present and carry string `address` and `path` fields.
pub fn http_input_config_from_value(config: &Option<serde_json::Value>) -> (r: Result<
    HttpInputConfig,
    Error,
>)
    ensures
        config is None ==> (r matches Err(e) && e is Config),
        r matches Err(e) ==> e is Config,
{
    match config {
        None => Err(Error::Config(String::from_str("Http input configuration is missing"))),
        Some(v) => {
            let address = match json_get(v, "address") {
                Some(a) => json_as_str(a),
                None => None,
            };
            let path = match json_get(v, "path") {
                Some(p) => json_as_str(p),
                None => None,
            };
            let cors_enabled = match json_get(v, "cors_enabled") {
                Some(c) => crate::json::json_as_bool(c),
                None => None,
            };
            http_input_config_from_parts(address, path, cors_enabled)
        },
    }
}

/// The HTTP input component: its configuration, the queue of accepted
/// request bodies (oldest first) and whether the server is up.
pub struct HttpInput {
    config: HttpInputConfig,
    queue: Vec<MessageBatch>,
    connected: bool,
}

impl HttpInput {
    /// The queued batches, oldest first.
    pub closed spec fn spec_queue(self) -> Seq<MessageBatch> {
        self.queue@
    }

    /// Whether the server is up.
    pub closed spec fn spec_connected(self) -> bool {
        self.connected
    }

    /// The listening address.
    pub closed spec fn spec_address(self) -> Seq<char> {
        self.config.address@
    }

    /// Create the input with an empty queue; the server is not up yet.
    pub fn new(config: HttpInputConfig) -> (r: Result<HttpInput, Error>)
        ensures
            r is Ok,
            r matches Ok(input) ==> {
                &&& input.spec_queue().len() == 0
                &&& !input.spec_connected()
                &&& input.spec_address() == config.address@
            },
    {
        Ok(HttpInput { config, queue: Vec::new(), connected: false })
    }

    /// The server came up (or was already up; connecting is idempotent).
    pub fn connect(&mut self)
        ensures
            final(self).spec_connected(),
            final(self).spec_queue() == old(self).spec_queue(),
            final(self).spec_address() == old(self).spec_address(),
    {
        self.connected = true;
    }

    /// An accepted request body joins the queue, newest last.
    pub fn enqueue(&mut self, msg: MessageBatch)
        ensures
            final(self).spec_queue() == old(self).spec_queue().push(msg),
            final(self).spec_connected() == old(self).spec_connected(),
            final(self).spec_address() == old(self).spec_address(),
    {
        self.queue.push(msg);
    }

    /// One read: without the server up it is a `Connection` error; an empty
    /// queue is a `Process` error after the embedding's brief wait; otherwise
    /// the oldest queued batch leaves the queue.
    pub fn read(&mut self) -> (r: Result<MessageBatch, Error>)
        ensures
            !old(self).spec_connected() ==> (r matches Err(e) && e is Connection),
            old(self).spec_connected() && old(self).spec_queue().len() == 0 ==> (r matches Err(e)
                && e is Process),
            old(self).spec_connected() && old(self).spec_queue().len() > 0 ==> (r matches Ok(m) && m
                == old(self).spec_queue()[0] && final(self).spec_queue() == old(
                self,
            ).spec_queue().drop_first()),
            r is Err ==> *final(self) == *old(self),
            final(self).spec_connected() == old(self).spec_connected(),
            final(self).spec_address() == old(self).spec_address(),
    {
        if !self.connected {
            return Err(Error::Connection(String::from_str("The input is not connected")));
        }
        if self.queue.len() == 0 {
            return Err(Error::Process(String::from_str("The queue is empty")));
        }
        let msg = self.queue.remove(0);
        proof {
            assert(self.queue@ =~= old(self).spec_queue().drop_first());
        }
        Ok(msg)
    }

    /// The server goes down; reads then report a `Connection` error.
    pub fn close(&mut self)
        ensures
            !final(self).spec_connected(),
            final(self).spec_queue() == old(self).spec_queue(),
            final(self).spec_address() == old(self).spec_address(),
    {
        self.connected = false;
    }
}

/// Register the HTTP input builder under its `http` tag.
pub fn init(registries: &mut Registries, builder: u64) -> (r: Result<(), Error>)
    requires
        old(registries).wf(),
    ensures
        final(registries).wf(),
        r is Ok <==> !old(registries).spec_input().spec_contains("http"@),
        r is Ok ==> final(registries).spec_input().spec_lookup("http"@) == Some(builder),
        r is Ok ==> final(registries).spec_input().tags() == old(
            registries,
        ).spec_input().tags().push("http"@),
        r matches Err(e) ==> e is Config,
{
    registries.register_input_builder(String::from_str("http"), builder)
}

} // verus!
