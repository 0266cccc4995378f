//! The Redis input: connection and subscription configuration.
//!
//! The client, its pub/sub stream and the list polling live in the
//! embedding. The configuration shape — single node or cluster, channel or
//! pattern subscriptions or list reads — and the builder's missing-fragment
//! check are fixed here.

use crate::error::Error;
use crate::registry::Registries;
use vstd::prelude::*;
use vstd::string::StringExecFns;

verus! {

/// Where the input connects: one node or a cluster.
pub enum ModeConfig {
    Cluster { urls: Vec<String> },
    Single { url: String },
}

/// What a subscription covers: explicit channels or patterns.
pub enum Subscribe {
    Channels { channels: Vec<String> },
    Patterns { patterns: Vec<String> },
}

/// How the input reads: a pub/sub subscription or list polling.
pub enum Type {
    Subscribe { subscribe: Subscribe },
    List { list: Vec<String> },
}

/// Redis input configuration.
pub struct RedisInputConfig {
    /// Where to connect.
    pub mode: ModeConfig,
    /// How to read.
    pub redis_type: Type,
}

/// Builds the Redis input from a parsed configuration.
pub struct RedisInputBuilder;

impl RedisInputBuilder {
    /// The builder's gate: a missing configuration fragment is rejected; a
    /// parsed one passes through to the embedding's constructor.
    pub fn build(&self, config: Option<RedisInputConfig>) -> (r: Result<RedisInputConfig, Error>)
        ensures
            r is Ok <==> config is Some,
            config matches Some(c) ==> r == Ok::<RedisInputConfig, Error>(c),
            r matches Err(e) ==> e is Config,
    {
        match config {
            Some(c) => Ok(c),
            None => Err(Error::Config(String::from_str("Redis input configuration is missing"))),
        }
    }
}

/// Register the Redis input builder under its `redis` tag.
pub fn init(registries: &mut Registries, builder: u64) -> (r: Result<(), Error>)
    requires
        old(registries).wf(),
    ensures
        final(registries).wf(),
        r is Ok <==> !old(registries).spec_input().spec_contains("redis"@),
        r is Ok ==> final(registries).spec_input().spec_lookup("redis"@) == Some(builder),
        r is Ok ==> final(registries).spec_input().tags() == old(
            registries,
        ).spec_input().tags().push("redis"@),
        r matches Err(e) ==> e is Config,
{
    registries.register_input_builder(String::from_str("redis"), builder)
}

} // verus!
