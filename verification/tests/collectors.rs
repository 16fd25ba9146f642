use vatis::memory::{memory_metrics, MemSnapshot};
use vatis::tcp::{tcp_metrics, TcpRow};

fn snapshot() -> MemSnapshot {
    MemSnapshot {
        mem_total: 101,
        mem_free: 102,
        mem_available: 103,
        buffers: 104,
        cached: 105,
        swap_cached: 106,
        active: 107,
        active_anon: 108,
        active_file: 109,
        inactive: 110,
        inactive_anon: 111,
        inactive_file: 112,
        mlocked: 113,
        unevictable: 114,
        swap_total: 115,
        swap_free: 116,
        dirty: 117,
        writeback: 118,
        anon_pages: 119,
        mapped: 120,
        shmem: 121,
        s_reclaimable: 122,
        s_unreclaim: 123,
        slab: 124,
        kernel_stack: 125,
        page_tables: 126,
        nfs_unstable: 127,
        bounce: 128,
        writeback_tmp: 129,
        commit_limit: 130,
        committed_as: 131,
        vmalloc_total: 132,
        vmalloc_used: 133,
        vmalloc_chunk: 134,
        hardware_corrupted: 135,
        anon_huge_pages: 136,
        huge_pages_total: 137,
        huge_pages_free: 138,
        huge_pages_surp: 139,
        huge_pages_rsvd: 140,
        hugepagesize: 141,
        cma_total: 142,
        cma_free: 143,
    }
}

const EXPECTED_NAMES: [&str; 43] = [
    "memory/total",
    "memory/free",
    "memory/available",
    "memory/buffers",
    "memory/cached",
    "memory/swap/cached",
    "memory/active",
    "memory/active/anon",
    "memory/active/file",
    "memory/inactive",
    "memory/inactive/anon",
    "memory/inactive/file",
    "memory/mlocked",
    "memory/unevictable",
    "memory/swap/total",
    "memory/swap/free",
    "memory/dirty",
    "memory/writeback",
    "memory/anon-pages",
    "memory/mapped",
    "memory/shmem",
    "memory/sreclaimable",
    "memory/sunreclaim",
    "memory/slab",
    "memory/kernelstack",
    "memory/pagetables",
    "memory/nfs-unstable",
    "memory/bounce",
    "memory/writebacktmp",
    "memory/commitlimit",
    "memory/committed-as",
    "memory/vmalloc/total",
    "memory/vmalloc/used",
    "memory/vmalloc/chunk",
    "memory/hardware-corrupted",
    "memory/hugepages/anon",
    "memory/hugepages/total",
    "memory/hugepages/free",
    "memory/hugepages/surp",
    "memory/hugepages/rsvd",
    "memory/hugepagesize",
    "memory/cma/total",
    "memory/cma/free",
];

#[test]
fn memory_collector_name_table() {
    let now: u128 = 1700000000000000000;
    let metrics = memory_metrics(&snapshot(), now);
    assert_eq!(metrics.len(), 43);
    for (i, m) in metrics.iter().enumerate() {
        assert_eq!(m.name, EXPECTED_NAMES[i]);
    }
}

#[test]
fn memory_collector_values_and_timestamps() {
    let now: u128 = 42;
    let metrics = memory_metrics(&snapshot(), now);
    for (i, m) in metrics.iter().enumerate() {
        assert_eq!(m.timestamp, now);
        assert_eq!(m.value, format!("{}", 101 + i));
    }
}

#[test]
fn memory_collector_total_field() {
    let metrics = memory_metrics(&snapshot(), 7);
    assert_eq!(metrics[0].name, "memory/total");
    assert_eq!(metrics[0].value, "101");
}

#[test]
fn tcp_collector_slot_names() {
    let rows = vec![
        TcpRow { slot: 0, address: "127.0.0.1:80".to_string() },
        TcpRow { slot: 3, address: "10.0.0.2:22".to_string() },
        TcpRow { slot: 7, address: "192.168.1.5:443".to_string() },
    ];
    let now: u128 = 99;
    let metrics = tcp_metrics(&rows, now);
    assert_eq!(metrics.len(), 3);
    assert_eq!(metrics[0].name, "tcp/0/ipv4address");
    assert_eq!(metrics[1].name, "tcp/3/ipv4address");
    assert_eq!(metrics[2].name, "tcp/7/ipv4address");
    assert_eq!(metrics[0].value, "127.0.0.1:80");
    assert_eq!(metrics[1].value, "10.0.0.2:22");
    assert_eq!(metrics[2].value, "192.168.1.5:443");
    for m in &metrics {
        assert_eq!(m.timestamp, now);
    }
}

#[test]
fn tcp_collector_empty_table() {
    let rows: Vec<TcpRow> = Vec::new();
    let metrics = tcp_metrics(&rows, 1);
    assert_eq!(metrics.len(), 0);
}

#[test]
fn collectors_share_tick_timestamp() {
    let now: u128 = 1234567890;
    let mem = memory_metrics(&snapshot(), now);
    let rows = vec![TcpRow { slot: 1, address: "0.0.0.0:0".to_string() }];
    let tcp = tcp_metrics(&rows, now);
    for m in mem.iter().chain(tcp.iter()) {
        assert_eq!(m.timestamp, now);
    }
}
