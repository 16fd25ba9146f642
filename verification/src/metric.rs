//! A single named, timestamped, valued measurement, ready for publishing.

use vstd::prelude::*;
use vstd::string::StringExecFns;
use crate::digits::{dec_str, render_u64};

verus! {

/// The mathematical model of a metric: its name path, the capture
/// timestamp (nanoseconds since the epoch), and its textual value.
pub struct MetricView {
    pub name: Seq<char>,
    pub timestamp: u128,
    pub value: Seq<char>,
}

/// One measurement: a hierarchical name path, the capture timestamp of
/// the tick that produced it, and the measured value rendered as text.
pub struct Metric {
    pub name: String,
    pub timestamp: u128,
    pub value: String,
}

impl View for Metric {
    type V = MetricView;

    open spec fn view(&self) -> MetricView {
        MetricView { name: self.name@, timestamp: self.timestamp, value: self.value@ }
    }
}

impl Metric {
    /// A metric holding a numeric measurement, rendered in decimal.
    pub fn new_numeric(name: &str, timestamp: u128, value: u64) -> (m: Metric)
        ensures
            m@ == (MetricView { name: name@, timestamp, value: dec_str(value as nat) }),
    {
        Metric { name: String::from_str(name), timestamp, value: render_u64(value) }
    }

    /// A metric holding an already-textual measurement.
    pub fn new_text(name: String, timestamp: u128, value: String) -> (m: Metric)
        ensures
            m@ == (MetricView { name: name@, timestamp, value: value@ }),
    {
        Metric { name, timestamp, value }
    }
}

} // verus!
