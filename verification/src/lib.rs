//! A host telemetry agent's verified core: metric collection tables,
//! broker message encoding, startup configuration, and the scheduling
//! state machine that drives sampling and shutdown.

pub mod digits;
pub mod identity;
pub mod interval;
pub mod memory;
pub mod metric;
pub mod publish;
pub mod schedule;
pub mod tcp;
pub mod tick;
