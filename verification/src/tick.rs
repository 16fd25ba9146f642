//! The sampling orchestrator's per-tick unit of work: under one shared
//! capture timestamp, every memory metric and every TCP metric is
//! encoded for dispatch — memory metrics first, then TCP rows in table
//! order.

use vstd::prelude::*;
use crate::memory::{mem_metric_count, mem_metric_views, memory_metrics, MemSnapshot};
use crate::metric::MetricView;
use crate::publish::{encode_message, encoded_view, BrokerMessage, MessageView};
use crate::tcp::{tcp_metric_views, tcp_metrics, TcpRow};

verus! {

/// The complete wire output of one tick: every collected metric,
/// encoded under the host identity, all carrying the same timestamp.
pub open spec fn tick_message_views(
    identity: Seq<char>,
    snap: MemSnapshot,
    rows: Seq<TcpRow>,
    now: u128,
) -> Seq<MessageView> {
    (mem_metric_views(snap, now) + tcp_metric_views(rows, now)).map_values(
        |m: MetricView| encoded_view(identity, m),
    )
}

/// Law: every metric produced in one tick carries that tick's capture
/// timestamp — metrics from both collectors are time-correlated,
/// differing only by name and value.
pub proof fn lemma_shared_timestamp(snap: MemSnapshot, rows: Seq<TcpRow>, now: u128)
    ensures
        forall|i: int|
            0 <= i < mem_metric_views(snap, now).len() ==> mem_metric_views(snap, now)[i].timestamp
                == now,
        forall|i: int|
            0 <= i < tcp_metric_views(rows, now).len() ==> tcp_metric_views(rows, now)[i].timestamp
                == now,
{
}

/// One tick of the sampling orchestrator, as a pure computation: both
/// collectors run against the same capture timestamp `now`, and every
/// resulting metric is encoded for dispatch under `identity`.
pub fn tick_messages(
    identity: &str,
    snap: &MemSnapshot,
    rows: &Vec<TcpRow>,
    now: u128,
) -> (out: Vec<BrokerMessage>)
    ensures
        out@.len() == mem_metric_count() + rows@.len(),
        forall|i: int|
            0 <= i < out@.len() ==> out@[i]@ == tick_message_views(identity@, *snap, rows@, now)[i],
{
    let mems = memory_metrics(snap, now);
    let tcps = tcp_metrics(rows, now);
    let ghost all_views = mem_metric_views(*snap, now) + tcp_metric_views(rows@, now);
    let mut out: Vec<BrokerMessage> = Vec::new();
    let mut i: usize = 0;
    while i < mems.len()
        invariant
            i <= mems@.len(),
            out@.len() == i,
            mems@.len() == mem_metric_views(*snap, now).len(),
            forall|k: int| 0 <= k < mems@.len() ==> mems@[k]@ == mem_metric_views(*snap, now)[k],
            all_views == mem_metric_views(*snap, now) + tcp_metric_views(rows@, now),
            forall|k: int| 0 <= k < i as int ==> out@[k]@ == encoded_view(identity@, all_views[k]),
        decreases mems@.len() - i,
    {
        out.push(encode_message(identity, &mems[i]));
        i = i + 1;
    }
    let ghost mem_len = mems@.len() as int;
    let mut j: usize = 0;
    while j < tcps.len()
        invariant
            j <= tcps@.len(),
            out@.len() == mem_len + j,
            mem_len == mem_metric_views(*snap, now).len(),
            tcps@.len() == tcp_metric_views(rows@, now).len(),
            forall|k: int| 0 <= k < tcps@.len() ==> tcps@[k]@ == tcp_metric_views(rows@, now)[k],
            all_views == mem_metric_views(*snap, now) + tcp_metric_views(rows@, now),
            forall|k: int|
                0 <= k < out@.len() ==> out@[k]@ == encoded_view(identity@, all_views[k]),
        decreases tcps@.len() - j,
    {
        out.push(encode_message(identity, &tcps[j]));
        j = j + 1;
    }
    proof {
        assert(out@.len() == all_views.len());
        assert forall|i: int| 0 <= i < out@.len() implies out@[i]@ == tick_message_views(
            identity@,
            *snap,
            rows@,
            now,
        )[i] by {
            assert(out@[i]@ == encoded_view(identity@, all_views[i]));
        }
    }
    out
}

} // verus!
