//! The metric publisher's encoding: one metric becomes one broker
//! message with topic `metrics/{identity}/{name}` and payload
//! `{timestamp};{value}`, dispatched fire-and-forget (quality of
//! service 0, no acknowledgement).

use vstd::prelude::*;
use vstd::string::StringExecFns;
use crate::digits::{dec_str, render_u128};
use crate::metric::{Metric, MetricView};

verus! {

/// The quality-of-service level for fire-and-forget delivery.
pub const FIRE_AND_FORGET_QOS: u8 = 0;

/// The mathematical model of one broker message.
pub struct MessageView {
    pub topic: Seq<char>,
    pub payload: Seq<char>,
    pub qos: u8,
}

/// One message ready for dispatch to the broker.
pub struct BrokerMessage {
    pub topic: String,
    pub payload: String,
    pub qos: u8,
}

impl View for BrokerMessage {
    type V = MessageView;

    open spec fn view(&self) -> MessageView {
        MessageView { topic: self.topic@, payload: self.payload@, qos: self.qos }
    }
}

/// How a metric is encoded under an identity: the topic namespaces the
/// metric name by the host identity, the payload joins timestamp and
/// value with a semicolon.
pub open spec fn encoded_view(identity: Seq<char>, m: MetricView) -> MessageView {
    MessageView {
        topic: "metrics/"@ + identity + "/"@ + m.name,
        payload: dec_str(m.timestamp as nat) + ";"@ + m.value,
        qos: 0,
    }
}

/// Encodes one metric as the broker message the publisher dispatches.
pub fn encode_message(identity: &str, m: &Metric) -> (msg: BrokerMessage)
    ensures
        msg@ == encoded_view(identity@, m@),
{
    let mut topic = String::from_str("metrics/");
    topic.append(identity);
    topic.append("/");
    topic.append(m.name.as_str());
    let mut payload = render_u128(m.timestamp);
    payload.append(";");
    payload.append(m.value.as_str());
    proof {
        assert(topic@ =~= "metrics/"@ + identity@ + "/"@ + m.name@);
        assert(payload@ =~= dec_str(m.timestamp as nat) + ";"@ + m.value@);
    }
    BrokerMessage { topic, payload, qos: FIRE_AND_FORGET_QOS }
}

/// The decision taken after one publish attempt: a failure is only
/// worth a warning, and the next metric (if any) is attempted either
/// way — the continuation does not depend on the outcome.
pub fn after_publish(index: usize, total: usize, ok: bool) -> (r: (bool, Option<usize>))
    requires
        index < total,
    ensures
        r.0 == !ok,
        r.1 == if index + 1 < total {
            Some((index + 1) as usize)
        } else {
            None::<usize>
        },
{
    let next = if index + 1 < total {
        Some(index + 1)
    } else {
        None
    };
    (!ok, next)
}

} // verus!
