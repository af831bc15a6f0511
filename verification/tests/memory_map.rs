use kernel_loader::memory_map::snapshot_buffer;
use kernel_loader::memory_map::snapshot_len;
use kernel_loader::memory_map::SLACK_ENTRIES;

#[test]
fn the_buffer_has_room_for_ten_more_entries() {
    assert_eq!(SLACK_ENTRIES, 10);
    assert_eq!(snapshot_len(4096, 48), Some(4576));
    assert_eq!(snapshot_len(0, 0), Some(0));
    assert_eq!(snapshot_len(100, 0), Some(100));
    assert_eq!(snapshot_len(0, 40), Some(400));
}

#[test]
fn the_buffer_is_never_shorter_than_the_memory_map() {
    for &(required_size, entry_size) in &[(0usize, 1usize), (4800, 48), (1 << 20, 40), (7, 3)] {
        let len = snapshot_len(required_size, entry_size).unwrap();
        assert!(len >= required_size);
        for added in 0..=SLACK_ENTRIES {
            assert!(len >= required_size + added * entry_size);
        }
        assert!(len < required_size + (SLACK_ENTRIES + 1) * entry_size);
    }
}

#[test]
fn there_is_no_buffer_beyond_what_the_machine_addresses() {
    assert_eq!(snapshot_len(usize::MAX, 1), None);
    assert_eq!(snapshot_len(0, usize::MAX / 10 + 1), None);
    assert_eq!(snapshot_len(usize::MAX - 9, 1), None);
    assert_eq!(snapshot_len(usize::MAX - 10, 1), Some(usize::MAX));
    assert_eq!(snapshot_len(5, usize::MAX / 10), Some(usize::MAX / 10 * 10 + 5));
}

#[test]
fn the_buffer_begins_as_zeros() {
    assert_eq!(snapshot_buffer(4576), vec![0u8; 4576]);
    assert!(snapshot_buffer(0).is_empty());
}
