//! The Kafka output: producer settings and the per-batch write decision.
//!
//! The producer itself lives in the embedding. Fixed here: the client
//! settings assembled from the configuration (broker list joined by commas,
//! optional client id, compression and acknowledgement level), and what one
//! batch turns into — its payloads to send in order, or an error for
//! columnar or non-textual content.

use crate::batch::{clone_payloads, MessageBatch};
use crate::error::Error;
use crate::registry::Registries;
use vstd::prelude::*;
use vstd::string::StringExecFns;

verus! {

/// The compression codecs a producer can be configured with.
#[derive(Clone, Copy, Debug, PartialEq, Eq, Structural)]
pub enum CompressionType {
    Uncompressed,
    Gzip,
    Snappy,
    Lz4,
}

impl CompressionType {
    /// The codec's configuration token.
    pub fn as_str(&self) -> (r: &'static str)
        ensures
            *self == CompressionType::Uncompressed ==> r@ == "none"@,
            *self == CompressionType::Gzip ==> r@ == "gzip"@,
            *self == CompressionType::Snappy ==> r@ == "snappy"@,
            *self == CompressionType::Lz4 ==> r@ == "lz4"@,
    {
        match self {
            CompressionType::Uncompressed => "none",
            CompressionType::Gzip => "gzip",
            CompressionType::Snappy => "snappy",
            CompressionType::Lz4 => "lz4",
        }
    }
}

/// Kafka output configuration.
pub struct KafkaOutputConfig {
    /// Kafka server addresses.
    pub brokers: Vec<String>,
    /// Target topic.
    pub topic: String,
    /// Partition key (optional).
    pub key: Option<String>,
    /// Client identifier.
    pub client_id: Option<String>,
    /// Compression codec.
    pub compression: Option<CompressionType>,
    /// Acknowledgement level (0, 1 or all).
    pub acks: Option<String>,
}

/// The strings joined by a separator.
pub open spec fn spec_join(parts: Seq<Seq<char>>, sep: Seq<char>) -> Seq<char>
    decreases parts.len(),
{
    if parts.len() == 0 {
        Seq::empty()
    } else if parts.len() == 1 {
        parts[0]
    } else {
        spec_join(parts.drop_last(), sep) + sep + parts.last()
    }
}

/// Join strings with a separator; the broker list becomes one
/// `bootstrap.servers` value this way.
pub fn join(parts: &Vec<String>, sep: &str) -> (r: String)
    ensures
        r@ == spec_join(parts@.map_values(|s: String| s@), sep@),
{
    let mut r = String::new();
    let n = parts.len();
    for i in 0..n
        invariant
            n == parts@.len(),
            r@ == spec_join(parts@.map_values(|s: String| s@).take(i as int), sep@),
    {
        if i > 0 {
            r.append(sep);
        }
        r.append(parts[i].as_str());
        proof {
            let views = parts@.map_values(|s: String| s@);
            assert(views.take(i + 1 as int).drop_last() =~= views.take(i as int));
            assert(views.take(i + 1 as int).last() == views[i as int]);
            assert(views[i as int] == parts@[i as int]@);
            if i == 0 {
                assert(views.take(1).len() == 1);
                assert(r@ =~= spec_join(views.take(1), sep@));
            } else {
                assert(r@ =~= spec_join(views.take(i + 1 as int), sep@));
            }
        }
    }
    proof {
        assert(parts@.map_values(|s: String| s@).take(n as int) =~= parts@.map_values(
            |s: String| s@,
        ));
    }
    r
}

/// The producer settings this configuration selects, in order: the broker
/// list under `bootstrap.servers`, then, each only when configured, the
/// client id, the compression codec's token, and the acknowledgement level.
pub open spec fn spec_client_settings(config: KafkaOutputConfig) -> Seq<(Seq<char>, Seq<char>)> {
    seq![("bootstrap.servers"@, spec_join(config.brokers@.map_values(|s: String| s@), ","@))]
        + (match config.client_id {
        Some(c) => seq![("client.id"@, c@)],
        None => Seq::empty(),
    }) + (match config.compression {
        Some(CompressionType::Uncompressed) => seq![("compression.type"@, "none"@)],
        Some(CompressionType::Gzip) => seq![("compression.type"@, "gzip"@)],
        Some(CompressionType::Snappy) => seq![("compression.type"@, "snappy"@)],
        Some(CompressionType::Lz4) => seq![("compression.type"@, "lz4"@)],
        None => Seq::empty(),
    }) + (match config.acks {
        Some(a) => seq![("acks"@, a@)],
        None => Seq::empty(),
    })
}

/// Assemble the producer settings from the configuration.
pub fn kafka_client_settings(config: &KafkaOutputConfig) -> (r: Vec<(String, String)>)
    ensures
        r@.map_values(|p: (String, String)| (p.0@, p.1@)) == spec_client_settings(*config),
{
    let mut r: Vec<(String, String)> = Vec::new();
    r.push((String::from_str("bootstrap.servers"), join(&config.brokers, ",")));
    match &config.client_id {
        Some(c) => r.push((String::from_str("client.id"), c.clone())),
        None => {},
    }
    match &config.compression {
        Some(c) => r.push((String::from_str("compression.type"), String::from_str(c.as_str()))),
        None => {},
    }
    match &config.acks {
        Some(a) => r.push((String::from_str("acks"), a.clone())),
        None => {},
    }
    proof {
        assert(r@.map_values(|p: (String, String)| (p.0@, p.1@)) =~= spec_client_settings(
            *config,
        ));
    }
    r
}

/// What one batch means for the producer: columnar content is rejected with
/// a `Process` error, as is any payload that is not a UTF-8 string; the
/// payloads of a textual binary batch are sent in order, and an empty batch
/// sends nothing.
pub fn kafka_write_plan(msg: &MessageBatch) -> (r: Result<Vec<Vec<u8>>, Error>)
    ensures
        r is Ok <==> (msg@ matches crate::batch::ContentV::Binary(p) && forall|i: int|
            0 <= i < p.len() ==> vstd::utf8::valid_utf8(#[trigger] p[i])),
        r matches Ok(v) ==> msg@ == crate::batch::ContentV::Binary(
            v@.map_values(|p: Vec<u8>| p@),
        ),
        r matches Err(e) ==> e is Process,
{
    match msg.as_string() {
        Err(e) => Err(e),
        Ok(_) => Ok(clone_payloads(msg.as_binary())),
    }
}

/// Register the Kafka output builder under its `kafka` tag.
pub fn init(registries: &mut Registries, builder: u64) -> (r: Result<(), Error>)
    requires
        old(registries).wf(),
    ensures
        final(registries).wf(),
        r is Ok <==> !old(registries).spec_output().spec_contains("kafka"@),
        r is Ok ==> final(registries).spec_output().spec_lookup("kafka"@) == Some(builder),
        r is Ok ==> final(registries).spec_output().tags() == old(
            registries,
        ).spec_output().tags().push("kafka"@),
        r matches Err(e) ==> e is Config,
{
    registries.register_output_builder(String::from_str("kafka"), builder)
}

} // verus!
