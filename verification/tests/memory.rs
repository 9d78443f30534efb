use supermetroid::memory::{MemoryWatcher, Width};

#[test]
fn a_new_watcher_holds_zero_twice() {
    let watcher = MemoryWatcher::new(0x079B, Width::Word);
    assert_eq!(watcher.address, 0x079B);
    assert_eq!(watcher.width, Width::Word);
    assert_eq!(watcher.old, 0);
    assert_eq!(watcher.current, 0);
}

#[test]
fn a_byte_is_read_alone() {
    let memory: Vec<u8> = vec![0x11, 0x22, 0x33, 0x44];
    let mut watcher = MemoryWatcher::new(1, Width::Byte);
    watcher.update_value(&memory);
    assert_eq!(watcher.current, 0x22);
    let mut last = MemoryWatcher::new(3, Width::Byte);
    last.update_value(&memory);
    assert_eq!(last.current, 0x44);
}

#[test]
fn a_word_is_read_low_byte_first() {
    let memory: Vec<u8> = vec![0x11, 0x22, 0x33, 0x44];
    let mut watcher = MemoryWatcher::new(1, Width::Word);
    watcher.update_value(&memory);
    assert_eq!(watcher.current, 0x3322);
    let mut last = MemoryWatcher::new(2, Width::Word);
    last.update_value(&memory);
    assert_eq!(last.current, 0x4433);
    let high: Vec<u8> = vec![0xFF, 0xFF];
    let mut all = MemoryWatcher::new(0, Width::Word);
    all.update_value(&high);
    assert_eq!(all.current, 0xFFFF);
}

#[test]
fn one_advance_keeps_zero_as_old_value() {
    let memory: Vec<u8> = vec![7, 9];
    for (width, value) in [(Width::Byte, 7), (Width::Word, 0x0907)] {
        let mut watcher = MemoryWatcher::new(0, width);
        watcher.update_value(&memory);
        assert_eq!(watcher.old, 0);
        assert_eq!(watcher.current, value);
    }
}

#[test]
fn a_second_advance_over_the_same_bytes_settles() {
    let memory: Vec<u8> = vec![7, 9];
    for (width, value) in [(Width::Byte, 7), (Width::Word, 0x0907)] {
        let mut watcher = MemoryWatcher::new(0, width);
        watcher.update_value(&memory);
        watcher.update_value(&memory);
        assert_eq!(watcher.old, value);
        assert_eq!(watcher.current, value);
    }
}

#[test]
fn an_advance_shifts_current_into_old() {
    let mut watcher = MemoryWatcher::new(0, Width::Byte);
    watcher.update_value(&vec![5]);
    watcher.update_value(&vec![10]);
    assert_eq!((watcher.old, watcher.current), (5, 10));
    watcher.update_value(&vec![3]);
    assert_eq!((watcher.old, watcher.current), (10, 3));
    assert_eq!(watcher.address, 0);
    assert_eq!(watcher.width, Width::Byte);
}
