use barcore::state::{display_bytes, scale_bytes};

#[test]
fn sizes_up_to_1024_stay_in_bytes() {
    assert_eq!(display_bytes(0), "     0 B");
    assert_eq!(display_bytes(7), "     7 B");
    assert_eq!(display_bytes(999), "   999 B");
    assert_eq!(display_bytes(1024), "  1024 B");
}

#[test]
fn larger_sizes_are_divided_down() {
    assert_eq!(display_bytes(1025), "   1 KiB");
    assert_eq!(display_bytes(2047), "   1 KiB");
    assert_eq!(display_bytes(2048), "   2 KiB");
    assert_eq!(display_bytes(1024 * 1024), "1024 KiB");
    assert_eq!(display_bytes(1024 * 1024 + 1024), "   1 MiB");
    assert_eq!(display_bytes(5 * 1024 * 1024 * 1024), "   5 GiB");
    assert_eq!(display_bytes(3 * 1024 * 1024 * 1024 * 1024), "   3 TiB");
}

#[test]
fn largest_unit_takes_what_is_left() {
    assert_eq!(display_bytes(u64::MAX), "16777215 TiB");
    assert_eq!(display_bytes(2000 * 1024u64.pow(4)), "2000 TiB");
}

#[test]
fn scaling_gives_size_and_unit() {
    assert_eq!(scale_bytes(0), (0, 0));
    assert_eq!(scale_bytes(1024), (1024, 0));
    assert_eq!(scale_bytes(1025), (1, 1));
    assert_eq!(scale_bytes(1024 * 1024 * 7 + 5), (7, 2));
    assert_eq!(scale_bytes(u64::MAX), (16777215, 4));
}
