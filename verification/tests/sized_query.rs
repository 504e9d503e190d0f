use proclist::sized_query::{byte_size, entry_count, take_reported};

#[test]
fn whole_entries_only() {
    assert_eq!(entry_count(0, 4), 0);
    assert_eq!(entry_count(3, 4), 0);
    assert_eq!(entry_count(4, 4), 1);
    assert_eq!(entry_count(4096, 4), 1024);
    assert_eq!(entry_count(17, 8), 2);
}

#[test]
fn byte_size_is_checked() {
    assert_eq!(byte_size(1024, 4), Some(4096));
    assert_eq!(byte_size(0, 8), Some(0));
    assert_eq!(byte_size(0x3fff_ffff, 4), Some(0xffff_fffc));
    assert_eq!(byte_size(0x4000_0000, 4), None);
}

#[test]
fn reported_entries_are_a_prefix() {
    assert_eq!(take_reported(vec![7u32, 8, 9, 0, 0], 12, 4), vec![7, 8, 9]);
    assert_eq!(take_reported(vec![7u32, 8, 9], 0, 4), Vec::<u32>::new());
    assert_eq!(take_reported(vec![7u32, 8, 9], 7, 4), vec![7]);
}

#[test]
fn reported_entries_never_pass_the_buffer() {
    assert_eq!(take_reported(vec![7u32, 8, 9], 400, 4), vec![7, 8, 9]);
    assert_eq!(take_reported(Vec::<usize>::new(), 16, 8), Vec::<usize>::new());
}
