use sim2d::memory::{find_memory_type_index, is_host_visible, StatsCollector, GB, KB, MB};

#[test]
fn memory_type_must_be_allowed_and_have_the_properties() {
    let flags = vec![0b0001, 0b0110, 0b0111, 0b0110];
    // Allowed types: 1 and 3; required: host visible and coherent.
    assert_eq!(find_memory_type_index(&flags, 0b1010, 0b0110), Some(1));
    // Type 1 not allowed.
    assert_eq!(find_memory_type_index(&flags, 0b1000, 0b0110), Some(3));
    // Device local required: only type 2 has it, but it is not allowed.
    assert_eq!(find_memory_type_index(&flags, 0b1010, 0b0001), None);
    assert_eq!(find_memory_type_index(&flags, 0b0100, 0b0001), Some(2));
    assert_eq!(find_memory_type_index(&vec![], 0xffff_ffff, 0), None);
    let all: Vec<u32> = vec![0; 32];
    assert_eq!(find_memory_type_index(&all, 1 << 31, 0), Some(31));
}

#[test]
fn host_visible_memory_is_mapped() {
    assert!(is_host_visible(0b0110));
    assert!(!is_host_visible(0b0001));
}

#[test]
fn size_units() {
    assert_eq!(KB, 1024);
    assert_eq!(MB, 1024 * 1024);
    assert_eq!(GB, 1024 * 1024 * 1024);
}

#[test]
fn stats_collector_counts_allocations() {
    let mut stats = StatsCollector::new("device memory".to_string());
    assert_eq!(stats.description(), "device memory");
    stats.record_allocation();
    stats.record_allocation();
    stats.record_free();
    stats.record_allocation();
    stats.record_allocation();
    assert_eq!(stats.total_allocations(), 4);
    assert_eq!(stats.concurrent_allocations(), 3);
    assert_eq!(stats.max_concurrent_allocations(), 3);
    stats.record_free();
    stats.record_free();
    assert_eq!(stats.concurrent_allocations(), 1);
    assert_eq!(stats.max_concurrent_allocations(), 3);
    assert_eq!(stats.total_allocations(), 4);
}
