//! The memory collector: maps one point-in-time memory snapshot to the
//! fixed, exhaustive table of `memory/...` metrics. The field-to-name
//! table is part of the wire contract and is stated once, in
//! `mem_metric_views`.

use vstd::prelude::*;
use crate::digits::dec_str;
use crate::metric::{Metric, MetricView};

verus! {

/// A point-in-time snapshot of the kernel's memory counters, as plain
/// values. Field order and names follow the kernel's memory-info rows.
#[derive(Clone, Copy)]
pub struct MemSnapshot {
    pub mem_total: u64,
    pub mem_free: u64,
    pub mem_available: u64,
    pub buffers: u64,
    pub cached: u64,
    pub swap_cached: u64,
    pub active: u64,
    pub active_anon: u64,
    pub active_file: u64,
    pub inactive: u64,
    pub inactive_anon: u64,
    pub inactive_file: u64,
    pub mlocked: u64,
    pub unevictable: u64,
    pub swap_total: u64,
    pub swap_free: u64,
    pub dirty: u64,
    pub writeback: u64,
    pub anon_pages: u64,
    pub mapped: u64,
    pub shmem: u64,
    pub s_reclaimable: u64,
    pub s_unreclaim: u64,
    pub slab: u64,
    pub kernel_stack: u64,
    pub page_tables: u64,
    pub nfs_unstable: u64,
    pub bounce: u64,
    pub writeback_tmp: u64,
    pub commit_limit: u64,
    pub committed_as: u64,
    pub vmalloc_total: u64,
    pub vmalloc_used: u64,
    pub vmalloc_chunk: u64,
    pub hardware_corrupted: u64,
    pub anon_huge_pages: u64,
    pub huge_pages_total: u64,
    pub huge_pages_free: u64,
    pub huge_pages_surp: u64,
    pub huge_pages_rsvd: u64,
    pub hugepagesize: u64,
    pub cma_total: u64,
    pub cma_free: u64,
}

/// How many metrics one memory snapshot yields.
pub open spec fn mem_metric_count() -> int {
    43
}

/// The static name table: the metrics produced from a snapshot, in
/// emission order, each with the shared capture timestamp `now`.
pub open spec fn mem_metric_views(s: MemSnapshot, now: u128) -> Seq<MetricView> {
    seq![
        MetricView { name: "memory/total"@, timestamp: now, value: dec_str(s.mem_total as nat) },
        MetricView { name: "memory/free"@, timestamp: now, value: dec_str(s.mem_free as nat) },
        MetricView {
            name: "memory/available"@,
            timestamp: now,
            value: dec_str(s.mem_available as nat),
        },
        MetricView { name: "memory/buffers"@, timestamp: now, value: dec_str(s.buffers as nat) },
        MetricView { name: "memory/cached"@, timestamp: now, value: dec_str(s.cached as nat) },
        MetricView {
            name: "memory/swap/cached"@,
            timestamp: now,
            value: dec_str(s.swap_cached as nat),
        },
        MetricView { name: "memory/active"@, timestamp: now, value: dec_str(s.active as nat) },
        MetricView {
            name: "memory/active/anon"@,
            timestamp: now,
            value: dec_str(s.active_anon as nat),
        },
        MetricView {
            name: "memory/active/file"@,
            timestamp: now,
            value: dec_str(s.active_file as nat),
        },
        MetricView { name: "memory/inactive"@, timestamp: now, value: dec_str(s.inactive as nat) },
        MetricView {
            name: "memory/inactive/anon"@,
            timestamp: now,
            value: dec_str(s.inactive_anon as nat),
        },
        MetricView {
            name: "memory/inactive/file"@,
            timestamp: now,
            value: dec_str(s.inactive_file as nat),
        },
        MetricView { name: "memory/mlocked"@, timestamp: now, value: dec_str(s.mlocked as nat) },
        MetricView {
            name: "memory/unevictable"@,
            timestamp: now,
            value: dec_str(s.unevictable as nat),
        },
        MetricView {
            name: "memory/swap/total"@,
            timestamp: now,
            value: dec_str(s.swap_total as nat),
        },
        MetricView { name: "memory/swap/free"@, timestamp: now, value: dec_str(s.swap_free as nat) },
        MetricView { name: "memory/dirty"@, timestamp: now, value: dec_str(s.dirty as nat) },
        MetricView { name: "memory/writeback"@, timestamp: now, value: dec_str(s.writeback as nat) },
        MetricView {
            name: "memory/anon-pages"@,
            timestamp: now,
            value: dec_str(s.anon_pages as nat),
        },
        MetricView { name: "memory/mapped"@, timestamp: now, value: dec_str(s.mapped as nat) },
        MetricView { name: "memory/shmem"@, timestamp: now, value: dec_str(s.shmem as nat) },
        MetricView {
            name: "memory/sreclaimable"@,
            timestamp: now,
            value: dec_str(s.s_reclaimable as nat),
        },
        MetricView {
            name: "memory/sunreclaim"@,
            timestamp: now,
            value: dec_str(s.s_unreclaim as nat),
        },
        MetricView { name: "memory/slab"@, timestamp: now, value: dec_str(s.slab as nat) },
        MetricView {
            name: "memory/kernelstack"@,
            timestamp: now,
            value: dec_str(s.kernel_stack as nat),
        },
        MetricView {
            name: "memory/pagetables"@,
            timestamp: now,
            value: dec_str(s.page_tables as nat),
        },
        MetricView {
            name: "memory/nfs-unstable"@,
            timestamp: now,
            value: dec_str(s.nfs_unstable as nat),
        },
        MetricView { name: "memory/bounce"@, timestamp: now, value: dec_str(s.bounce as nat) },
        MetricView {
            name: "memory/writebacktmp"@,
            timestamp: now,
            value: dec_str(s.writeback_tmp as nat),
        },
        MetricView {
            name: "memory/commitlimit"@,
            timestamp: now,
            value: dec_str(s.commit_limit as nat),
        },
        MetricView {
            name: "memory/committed-as"@,
            timestamp: now,
            value: dec_str(s.committed_as as nat),
        },
        MetricView {
            name: "memory/vmalloc/total"@,
            timestamp: now,
            value: dec_str(s.vmalloc_total as nat),
        },
        MetricView {
            name: "memory/vmalloc/used"@,
            timestamp: now,
            value: dec_str(s.vmalloc_used as nat),
        },
        MetricView {
            name: "memory/vmalloc/chunk"@,
            timestamp: now,
            value: dec_str(s.vmalloc_chunk as nat),
        },
        MetricView {
            name: "memory/hardware-corrupted"@,
            timestamp: now,
            value: dec_str(s.hardware_corrupted as nat),
        },
        MetricView {
            name: "memory/hugepages/anon"@,
            timestamp: now,
            value: dec_str(s.anon_huge_pages as nat),
        },
        MetricView {
            name: "memory/hugepages/total"@,
            timestamp: now,
            value: dec_str(s.huge_pages_total as nat),
        },
        MetricView {
            name: "memory/hugepages/free"@,
            timestamp: now,
            value: dec_str(s.huge_pages_free as nat),
        },
        MetricView {
            name: "memory/hugepages/surp"@,
            timestamp: now,
            value: dec_str(s.huge_pages_surp as nat),
        },
        MetricView {
            name: "memory/hugepages/rsvd"@,
            timestamp: now,
            value: dec_str(s.huge_pages_rsvd as nat),
        },
        MetricView {
            name: "memory/hugepagesize"@,
            timestamp: now,
            value: dec_str(s.hugepagesize as nat),
        },
        MetricView { name: "memory/cma/total"@, timestamp: now, value: dec_str(s.cma_total as nat) },
        MetricView { name: "memory/cma/free"@, timestamp: now, value: dec_str(s.cma_free as nat) },
    ]
}

/// The memory collector: one metric per snapshot field, named by the
/// static table, every one carrying the shared capture timestamp.
pub fn memory_metrics(snap: &MemSnapshot, now: u128) -> (out: Vec<Metric>)
    ensures
        out@.len() == mem_metric_count(),
        forall|i: int|
            0 <= i < out@.len() ==> out@[i]@ == mem_metric_views(*snap, now)[i],
{
    let mut out: Vec<Metric> = Vec::new();
    out.push(Metric::new_numeric("memory/total", now, snap.mem_total));
    out.push(Metric::new_numeric("memory/free", now, snap.mem_free));
    out.push(Metric::new_numeric("memory/available", now, snap.mem_available));
    out.push(Metric::new_numeric("memory/buffers", now, snap.buffers));
    out.push(Metric::new_numeric("memory/cached", now, snap.cached));
    out.push(Metric::new_numeric("memory/swap/cached", now, snap.swap_cached));
    out.push(Metric::new_numeric("memory/active", now, snap.active));
    out.push(Metric::new_numeric("memory/active/anon", now, snap.active_anon));
    out.push(Metric::new_numeric("memory/active/file", now, snap.active_file));
    out.push(Metric::new_numeric("memory/inactive", now, snap.inactive));
    out.push(Metric::new_numeric("memory/inactive/anon", now, snap.inactive_anon));
    out.push(Metric::new_numeric("memory/inactive/file", now, snap.inactive_file));
    out.push(Metric::new_numeric("memory/mlocked", now, snap.mlocked));
    out.push(Metric::new_numeric("memory/unevictable", now, snap.unevictable));
    out.push(Metric::new_numeric("memory/swap/total", now, snap.swap_total));
    out.push(Metric::new_numeric("memory/swap/free", now, snap.swap_free));
    out.push(Metric::new_numeric("memory/dirty", now, snap.dirty));
    out.push(Metric::new_numeric("memory/writeback", now, snap.writeback));
    out.push(Metric::new_numeric("memory/anon-pages", now, snap.anon_pages));
    out.push(Metric::new_numeric("memory/mapped", now, snap.mapped));
    out.push(Metric::new_numeric("memory/shmem", now, snap.shmem));
    out.push(Metric::new_numeric("memory/sreclaimable", now, snap.s_reclaimable));
    out.push(Metric::new_numeric("memory/sunreclaim", now, snap.s_unreclaim));
    out.push(Metric::new_numeric("memory/slab", now, snap.slab));
    out.push(Metric::new_numeric("memory/kernelstack", now, snap.kernel_stack));
    out.push(Metric::new_numeric("memory/pagetables", now, snap.page_tables));
    out.push(Metric::new_numeric("memory/nfs-unstable", now, snap.nfs_unstable));
    out.push(Metric::new_numeric("memory/bounce", now, snap.bounce));
    out.push(Metric::new_numeric("memory/writebacktmp", now, snap.writeback_tmp));
    out.push(Metric::new_numeric("memory/commitlimit", now, snap.commit_limit));
    out.push(Metric::new_numeric("memory/committed-as", now, snap.committed_as));
    out.push(Metric::new_numeric("memory/vmalloc/total", now, snap.vmalloc_total));
    out.push(Metric::new_numeric("memory/vmalloc/used", now, snap.vmalloc_used));
    out.push(Metric::new_numeric("memory/vmalloc/chunk", now, snap.vmalloc_chunk));
    out.push(Metric::new_numeric("memory/hardware-corrupted", now, snap.hardware_corrupted));
    out.push(Metric::new_numeric("memory/hugepages/anon", now, snap.anon_huge_pages));
    out.push(Metric::new_numeric("memory/hugepages/total", now, snap.huge_pages_total));
    out.push(Metric::new_numeric("memory/hugepages/free", now, snap.huge_pages_free));
    out.push(Metric::new_numeric("memory/hugepages/surp", now, snap.huge_pages_surp));
    out.push(Metric::new_numeric("memory/hugepages/rsvd", now, snap.huge_pages_rsvd));
    out.push(Metric::new_numeric("memory/hugepagesize", now, snap.hugepagesize));
    out.push(Metric::new_numeric("memory/cma/total", now, snap.cma_total));
    out.push(Metric::new_numeric("memory/cma/free", now, snap.cma_free));
    out
}

} // verus!
