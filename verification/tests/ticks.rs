use vatis::memory::MemSnapshot;
use vatis::tcp::TcpRow;
use vatis::tick::tick_messages;

fn zero_snapshot() -> MemSnapshot {
    MemSnapshot {
        mem_total: 1,
        mem_free: 0,
        mem_available: 0,
        buffers: 0,
        cached: 0,
        swap_cached: 0,
        active: 0,
        active_anon: 0,
        active_file: 0,
        inactive: 0,
        inactive_anon: 0,
        inactive_file: 0,
        mlocked: 0,
        unevictable: 0,
        swap_total: 0,
        swap_free: 0,
        dirty: 0,
        writeback: 0,
        anon_pages: 0,
        mapped: 0,
        shmem: 0,
        s_reclaimable: 0,
        s_unreclaim: 0,
        slab: 0,
        kernel_stack: 0,
        page_tables: 0,
        nfs_unstable: 0,
        bounce: 0,
        writeback_tmp: 0,
        commit_limit: 0,
        committed_as: 0,
        vmalloc_total: 0,
        vmalloc_used: 0,
        vmalloc_chunk: 0,
        hardware_corrupted: 0,
        anon_huge_pages: 0,
        huge_pages_total: 0,
        huge_pages_free: 0,
        huge_pages_surp: 0,
        huge_pages_rsvd: 0,
        hugepagesize: 0,
        cma_total: 0,
        cma_free: 0,
    }
}

#[test]
fn tick_covers_both_collectors() {
    let rows = vec![
        TcpRow { slot: 2, address: "127.0.0.1:8080".to_string() },
        TcpRow { slot: 5, address: "10.1.1.1:22".to_string() },
    ];
    let now: u128 = 1700000000000000000;
    let msgs = tick_messages("aa:bb:cc:dd:ee:ff", &zero_snapshot(), &rows, now);
    assert_eq!(msgs.len(), 45);
    assert_eq!(msgs[0].topic, "metrics/aa:bb:cc:dd:ee:ff/memory/total");
    assert_eq!(msgs[0].payload, "1700000000000000000;1");
    assert_eq!(msgs[43].topic, "metrics/aa:bb:cc:dd:ee:ff/tcp/2/ipv4address");
    assert_eq!(msgs[43].payload, "1700000000000000000;127.0.0.1:8080");
    assert_eq!(msgs[44].topic, "metrics/aa:bb:cc:dd:ee:ff/tcp/5/ipv4address");
    assert_eq!(msgs[44].payload, "1700000000000000000;10.1.1.1:22");
}

#[test]
fn tick_messages_share_one_timestamp() {
    let rows = vec![TcpRow { slot: 0, address: "0.0.0.0:0".to_string() }];
    let now: u128 = 31337;
    let msgs = tick_messages("id", &zero_snapshot(), &rows, now);
    for m in &msgs {
        assert!(m.payload.starts_with("31337;"));
        assert_eq!(m.qos, 0);
    }
}

#[test]
fn tick_without_tcp_rows() {
    let rows: Vec<TcpRow> = Vec::new();
    let msgs = tick_messages("id", &zero_snapshot(), &rows, 1);
    assert_eq!(msgs.len(), 43);
}
