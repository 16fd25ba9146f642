//! The TCP collector: one metric per socket-table row, named by the
//! row's kernel slot number, valued with the row's local address text.

use vstd::prelude::*;
use vstd::string::StringExecFns;
use crate::digits::{dec_str, render_u64};
use crate::metric::{Metric, MetricView};

verus! {

/// One row of the kernel's TCP socket table, as plain values: the
/// identifying slot number and the local address already rendered as
/// text.
pub struct TcpRow {
    pub slot: u64,
    pub address: String,
}

/// The metric name for the row in slot `slot`.
pub open spec fn tcp_metric_name(slot: nat) -> Seq<char> {
    "tcp/"@ + dec_str(slot) + "/ipv4address"@
}

/// The metrics produced from a socket table, in row order, each with
/// the shared capture timestamp `now`.
pub open spec fn tcp_metric_views(rows: Seq<TcpRow>, now: u128) -> Seq<MetricView> {
    Seq::new(
        rows.len(),
        |i: int|
            MetricView {
                name: tcp_metric_name(rows[i].slot as nat),
                timestamp: now,
                value: rows[i].address@,
            },
    )
}

/// The TCP collector: one metric per row, in row order.
pub fn tcp_metrics(rows: &Vec<TcpRow>, now: u128) -> (out: Vec<Metric>)
    ensures
        out@.len() == rows@.len(),
        forall|i: int|
            0 <= i < out@.len() ==> out@[i]@ == tcp_metric_views(rows@, now)[i],
{
    let mut out: Vec<Metric> = Vec::new();
    let mut i: usize = 0;
    while i < rows.len()
        invariant
            i <= rows@.len(),
            out@.len() == i,
            forall|k: int| 0 <= k < i as int ==> out@[k]@ == tcp_metric_views(rows@, now)[k],
        decreases rows@.len() - i,
    {
        let mut name = String::from_str("tcp/");
        name.append(render_u64(rows[i].slot).as_str());
        name.append("/ipv4address");
        proof {
            assert(name@ =~= tcp_metric_name(rows@[i as int].slot as nat));
        }
        let value = rows[i].address.clone();
        out.push(Metric::new_text(name, now, value));
        i = i + 1;
    }
    out
}

} // verus!
