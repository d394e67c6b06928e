use privsep::context::{MapError, MemoryMap};

fn map_of(regions: &[(usize, &[u8], bool)]) -> MemoryMap {
    let mut map = MemoryMap::new();
    for (base, bytes, unprivileged) in regions {
        assert_eq!(map.map(*base, bytes.to_vec(), *unprivileged), Ok(()));
    }
    map
}

#[test]
fn nothing_is_readable_in_an_empty_map() {
    let map = MemoryMap::new();
    assert!(!map.is_readable_from_current_context(0, 1));
    assert!(!map.is_readable_from_current_context(0x2000_0000, 16));
    assert_eq!(map.read(0, 1), None);
}

#[test]
fn an_empty_range_is_readable_anywhere() {
    let map = map_of(&[(0x100, b"abcd", true), (0x200, b"key!", false)]);
    assert!(map.is_readable_from_current_context(0, 0));
    assert!(map.is_readable_from_current_context(0x100, 0));
    assert!(map.is_readable_from_current_context(0x200, 0));
    assert!(map.is_readable_from_current_context(usize::MAX, 0));
    assert!(MemoryMap::new().is_readable_from_current_context(0x42, 0));
}

#[test]
fn a_range_inside_one_window_region_is_readable() {
    let map = map_of(&[(0x100, b"abcdefgh", true)]);
    assert!(map.is_readable_from_current_context(0x100, 8));
    assert!(map.is_readable_from_current_context(0x100, 1));
    assert!(map.is_readable_from_current_context(0x107, 1));
    assert!(map.is_readable_from_current_context(0x102, 4));
}

#[test]
fn a_range_that_leaves_the_window_is_not_readable() {
    let map = map_of(&[(0x100, b"abcdefgh", true)]);
    assert!(!map.is_readable_from_current_context(0x100, 9));
    assert!(!map.is_readable_from_current_context(0xFF, 2));
    assert!(!map.is_readable_from_current_context(0xFF, 1));
    assert!(!map.is_readable_from_current_context(0x108, 1));
    assert!(!map.is_readable_from_current_context(0x107, 2));
}

#[test]
fn privileged_memory_is_not_readable() {
    let map = map_of(&[(0x100, b"abcd", true), (0x200, b"key!", false)]);
    assert!(!map.is_readable_from_current_context(0x200, 4));
    assert!(!map.is_readable_from_current_context(0x200, 1));
    assert!(!map.is_readable_from_current_context(0x203, 1));
}

#[test]
fn a_range_over_adjacent_window_regions_is_readable() {
    let map = map_of(&[(0x104, b"efgh", true), (0x100, b"abcd", true), (0x108, b"ij", true)]);
    assert!(map.is_readable_from_current_context(0x100, 10));
    assert!(map.is_readable_from_current_context(0x102, 4));
    assert!(map.is_readable_from_current_context(0x103, 6));
    assert!(!map.is_readable_from_current_context(0x100, 11));
}

#[test]
fn a_gap_between_window_regions_is_not_readable() {
    let map = map_of(&[(0x100, b"abcd", true), (0x105, b"fgh", true)]);
    assert!(!map.is_readable_from_current_context(0x100, 8));
    assert!(!map.is_readable_from_current_context(0x104, 1));
    assert!(map.is_readable_from_current_context(0x105, 3));
}

#[test]
fn a_range_that_runs_from_the_window_into_privileged_memory_is_not_readable() {
    let map = map_of(&[(0x100, b"abcd", true), (0x104, b"key!", false)]);
    assert!(map.is_readable_from_current_context(0x100, 4));
    assert!(!map.is_readable_from_current_context(0x100, 5));
    assert!(!map.is_readable_from_current_context(0x103, 2));
    assert!(!map.is_readable_from_current_context(0x100, 8));
}

#[test]
fn a_range_may_end_at_the_last_address() {
    let map = map_of(&[(usize::MAX - 3, b"wxyz", true)]);
    assert!(map.is_readable_from_current_context(usize::MAX - 3, 4));
    assert!(map.is_readable_from_current_context(usize::MAX, 1));
    assert_eq!(map.read(usize::MAX - 3, 4), Some(b"wxyz".to_vec()));
    assert_eq!(map.read(usize::MAX, 1), Some(b"z".to_vec()));
}

#[test]
fn a_range_that_runs_past_the_last_address_is_not_readable() {
    let map = map_of(&[(usize::MAX - 3, b"wxyz", true), (0, b"abcd", true)]);
    assert!(!map.is_readable_from_current_context(usize::MAX - 3, 5));
    assert!(!map.is_readable_from_current_context(usize::MAX, 2));
    assert!(!map.is_readable_from_current_context(usize::MAX - 3, usize::MAX));
    assert!(!map.is_readable_from_current_context(1, usize::MAX));
    assert_eq!(map.read(usize::MAX - 3, 5), None);
    assert_eq!(map.read(usize::MAX, 2), None);
}

#[test]
fn map_refuses_a_region_that_runs_past_the_last_address() {
    let mut map = MemoryMap::new();
    assert_eq!(map.map(usize::MAX - 3, b"vwxyz".to_vec(), true), Err(MapError::Wraps));
    assert_eq!(map.map(usize::MAX, b"yz".to_vec(), false), Err(MapError::Wraps));
    assert!(!map.is_readable_from_current_context(usize::MAX, 1));
    assert_eq!(map.map(usize::MAX - 3, b"wxyz".to_vec(), true), Ok(()));
    assert_eq!(map.map(usize::MAX, b"yz".to_vec(), true), Err(MapError::Wraps));
}

#[test]
fn map_refuses_a_region_that_overlaps_and_keeps_what_it_had() {
    let mut map = map_of(&[(0x100, b"abcdefgh", true)]);
    assert_eq!(map.map(0x104, b"XXXXXXXX".to_vec(), false), Err(MapError::Overlaps));
    assert_eq!(map.map(0xFC, b"XXXXX".to_vec(), false), Err(MapError::Overlaps));
    assert_eq!(map.map(0x100, b"X".to_vec(), false), Err(MapError::Overlaps));
    assert_eq!(map.map(0x107, b"X".to_vec(), false), Err(MapError::Overlaps));
    assert_eq!(map.map(0xF0, vec![0; 0x100], false), Err(MapError::Overlaps));
    assert!(map.is_readable_from_current_context(0x100, 8));
    assert_eq!(map.read(0x100, 8), Some(b"abcdefgh".to_vec()));
    assert_eq!(map.read(0xFC, 4), None);
}

#[test]
fn map_accepts_regions_that_touch() {
    let mut map = map_of(&[(0x100, b"abcdefgh", true)]);
    assert_eq!(map.map(0xFC, b"wxyz".to_vec(), true), Ok(()));
    assert_eq!(map.map(0x108, b"ij".to_vec(), true), Ok(()));
    assert_eq!(map.read(0xFC, 14), Some(b"wxyzabcdefghij".to_vec()));
    assert!(map.is_readable_from_current_context(0xFC, 14));
}

#[test]
fn map_accepts_an_empty_region_anywhere() {
    let mut map = map_of(&[(0x100, b"abcd", true)]);
    assert_eq!(map.map(0x102, Vec::new(), false), Ok(()));
    assert_eq!(map.map(usize::MAX, Vec::new(), false), Ok(()));
    assert!(map.is_readable_from_current_context(0x100, 4));
    assert_eq!(map.read(0x100, 4), Some(b"abcd".to_vec()));
    assert_eq!(map.map(0x102, b"X".to_vec(), false), Err(MapError::Overlaps));
}

#[test]
fn a_region_that_both_wraps_and_overlaps_is_said_to_wrap() {
    let mut map = map_of(&[(usize::MAX - 3, b"wxyz", true)]);
    assert_eq!(map.map(usize::MAX - 1, b"abc".to_vec(), true), Err(MapError::Wraps));
}

#[test]
fn read_returns_the_bytes_of_the_range() {
    let map = map_of(&[(0x100, b"abcdefgh", true), (0x200, b"key!", false)]);
    assert_eq!(map.read(0x100, 8), Some(b"abcdefgh".to_vec()));
    assert_eq!(map.read(0x102, 3), Some(b"cde".to_vec()));
    assert_eq!(map.read(0x200, 4), Some(b"key!".to_vec()));
    assert_eq!(map.read(0x300, 0), Some(Vec::new()));
}

#[test]
fn read_crosses_regions_whatever_their_window() {
    let map = map_of(&[(0x104, b"key!", false), (0x100, b"abcd", true)]);
    assert_eq!(map.read(0x102, 4), Some(b"cdke".to_vec()));
    assert_eq!(map.read(0x100, 8), Some(b"abcdkey!".to_vec()));
}

#[test]
fn read_needs_every_byte_mapped() {
    let map = map_of(&[(0x100, b"abcd", true), (0x105, b"fgh", true)]);
    assert_eq!(map.read(0x100, 5), None);
    assert_eq!(map.read(0x104, 1), None);
    assert_eq!(map.read(0xFF, 2), None);
    assert_eq!(map.read(0x105, 4), None);
}
