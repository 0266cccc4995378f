//! The MQTT input: subscription configuration and read decisions.
//!
//! The broker connection, its event loop and the manual acknowledgement of a
//! publish live in the embedding. What is fixed here: how a quality-of-service
//! number maps to a subscription level, and what one received event turns
//! into — a binary batch carrying the publish payload together with an ack
//! that releases that publish, an error passed through, or `EOF` once the
//! event channel has closed.

use crate::ack::Ack;
use crate::batch::{ContentV, MessageBatch};
use crate::error::Error;
use vstd::prelude::*;

verus! {

/// MQTT input configuration.
pub struct MqttInputConfig {
    /// Broker address.
    pub host: String,
    /// Broker port.
    pub port: u16,
    /// Client identifier.
    pub client_id: String,
    /// Username (optional).
    pub username: Option<String>,
    /// Password (optional).
    pub password: Option<String>,
    /// Topics to subscribe to.
    pub topics: Vec<String>,
    /// Quality of service (0, 1 or 2).
    pub qos: Option<u8>,
    /// Whether to clear the session.
    pub clean_session: Option<bool>,
    /// Keep-alive interval in seconds.
    pub keep_alive: Option<u64>,
}

/// The three MQTT subscription quality-of-service levels.
#[derive(Clone, Copy, Debug, PartialEq, Eq, Structural)]
pub enum QosLevel {
    AtMostOnce,
    AtLeastOnce,
    ExactlyOnce,
}

/// The subscription level a configured number selects: 0, 1 and 2 name their
/// levels; anything else, including no setting, defaults to at-least-once.
pub fn qos_level(qos: Option<u8>) -> (r: QosLevel)
    ensures
        qos == Some(0u8) ==> r == QosLevel::AtMostOnce,
        qos == Some(1u8) ==> r == QosLevel::AtLeastOnce,
        qos == Some(2u8) ==> r == QosLevel::ExactlyOnce,
        (qos is None || (qos matches Some(q) && q > 2)) ==> r == QosLevel::AtLeastOnce,
    {
    match qos {
        Some(0u8) => QosLevel::AtMostOnce,
        Some(1u8) => QosLevel::AtLeastOnce,
        Some(2u8) => QosLevel::ExactlyOnce,
        _ => QosLevel::AtLeastOnce,
    }
}

/// What the broker's event loop handed over: a publish, identified by the
/// delivery token under which the embedding can release it, or an error.
pub enum MqttMsg {
    Publish(Vec<u8>, u64),
    Failed(Error),
}

/// One read from the MQTT input. Without a connected client the read reports
/// `Disconnection`. A closed event channel reports `EOF`. A publish becomes a
/// binary batch of its one payload, paired with the ack that releases the
/// publish; an error from the event loop passes through.
pub fn read_event(connected: bool, received: Option<MqttMsg>) -> (r: Result<
    (MessageBatch, Ack),
    Error,
>)
    ensures
        !connected ==> (r matches Err(e) && e is Disconnection),
        connected && received is None ==> (r matches Err(e) && e is EOF),
        connected ==> match received {
            Some(MqttMsg::Publish(payload, token)) => r matches Ok(p) && p.0@
                == ContentV::Binary(seq![payload@]) && p.1@ == seq![token],
            Some(MqttMsg::Failed(e)) => r == Err::<(MessageBatch, Ack), Error>(e),
            None => r is Err,
        },
{
    if !connected {
        return Err(Error::Disconnection);
    }
    match received {
        None => Err(Error::EOF),
        Some(MqttMsg::Failed(e)) => Err(e),
        Some(MqttMsg::Publish(payload, token)) => {
            let ghost payload_view = payload@;
            let mut payloads: Vec<Vec<u8>> = Vec::new();
            payloads.push(payload);
            let batch = MessageBatch::new_binary(payloads);
            proof {
                assert(payloads@.map_values(|p: Vec<u8>| p@) =~= seq![payload_view]);
            }
            Ok((batch, Ack::source(token)))
        },
    }
}

} // verus!
