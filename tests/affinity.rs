use forkbench::affinity::{
    count_processor_entries, cpu_set_for, group_affinity_mask, numa_node_from_query, NumaInfo,
};

#[test]
fn cpu_set_names_one_processor() {
    let words = cpu_set_for(70);
    assert_eq!(words.len(), 16);
    for (i, w) in words.iter().enumerate() {
        if i == 1 {
            assert_eq!(*w, 1u64 << 6);
        } else {
            assert_eq!(*w, 0);
        }
    }
    let first = cpu_set_for(0);
    assert_eq!(first[0], 1);
    let last = cpu_set_for(1023);
    assert_eq!(last[15], 1u64 << 63);
}

#[test]
fn cpuinfo_processor_lines_are_counted() {
    let text = "processor\t: 0\nvendor_id\t: GenuineIntel\nmodel name\t: processor x\n\n\
                processor\t: 1\nflags\t\t: fpu\n\nprocessor\t: 2\n";
    assert_eq!(count_processor_entries(text.as_bytes()), 3);
    assert_eq!(count_processor_entries(b""), 0);
    assert_eq!(count_processor_entries(b"processo"), 0);
    assert_eq!(count_processor_entries(b" processor\nprocessor"), 1);
}

#[test]
fn numa_query_outcomes() {
    assert_eq!(numa_node_from_query(true, 2), Some(2));
    assert_eq!(numa_node_from_query(false, 2), None);
    assert_eq!(numa_node_from_query(true, u16::MAX), None);
}

#[test]
fn group_mask_selects_processor_number() {
    let info = NumaInfo { group: 1, number: 5, numa_id: 0 };
    assert_eq!(group_affinity_mask(info), 32);
    assert_eq!(group_affinity_mask(NumaInfo { group: 0, number: 63, numa_id: 1 }), 1u64 << 63);
}
