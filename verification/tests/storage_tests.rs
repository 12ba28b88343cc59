use sfy_buoy::storage::{read_file, write_file, CountingStorage, DirHandle, StorageError};

#[test]
fn balanced_on_success() {
    let mut dev = CountingStorage::new(false, false, false, false);
    let n = write_file(&mut dev, "axl.bin", b"payload").unwrap();
    assert_eq!(n, 7);
    assert_eq!(dev.open_calls(), 2);
    assert_eq!(dev.close_calls(), 2);
}

#[test]
fn balanced_on_read_failure() {
    let mut dev = CountingStorage::new(false, false, true, false);
    // The read fails after both handles were taken: the early failure
    // path still releases both.
    assert!(matches!(read_file(&mut dev, "axl.bin"), Err(StorageError::Device)));
    assert_eq!(dev.open_calls(), 2);
    assert_eq!(dev.close_calls(), 2);
}

#[test]
fn balanced_on_write_failure() {
    let mut dev = CountingStorage::new(false, false, false, true);
    assert!(write_file(&mut dev, "axl.bin", b"payload").is_err());
    assert_eq!(dev.open_calls(), 2);
    assert_eq!(dev.close_calls(), 2);
}

#[test]
fn balanced_on_open_file_failure() {
    let mut dev = CountingStorage::new(false, true, false, false);
    // Only the root directory was opened; the failure path closes it.
    assert!(read_file(&mut dev, "axl.bin").is_err());
    assert_eq!(dev.open_calls(), 1);
    assert_eq!(dev.close_calls(), 1);
}

#[test]
fn balanced_on_open_root_failure() {
    let mut dev = CountingStorage::new(true, false, false, false);
    assert!(read_file(&mut dev, "axl.bin").is_err());
    assert_eq!(dev.open_calls(), 0);
    assert_eq!(dev.close_calls(), 0);
}

#[test]
fn explicit_close_then_teardown_releases_once() {
    let mut dev = CountingStorage::new(false, false, false, false);
    let mut root = DirHandle::open_root(&mut dev).unwrap();
    root.close(&mut dev);
    // Closing an already released handle is a no-op: no double release.
    root.close(&mut dev);
    assert_eq!(dev.open_calls(), 1);
    assert_eq!(dev.close_calls(), 1);
}

#[test]
fn read_and_write_move_no_handles() {
    let mut dev = CountingStorage::new(false, false, false, false);
    let root = DirHandle::open_root(&mut dev).unwrap();
    let mut file = root
        .open_file(&mut dev, "axl.bin", sfy_buoy::storage::OpenMode::ReadWriteCreate)
        .unwrap();
    assert_eq!(file.write(&mut dev, b"abc").unwrap(), 3);
    assert_eq!(file.read(&mut dev).unwrap(), Vec::<u8>::new());
    assert_eq!(dev.open_calls(), 2);
    assert_eq!(dev.close_calls(), 0);
    file.close(&mut dev);
    let mut root = root;
    root.close(&mut dev);
    assert_eq!(dev.close_calls(), 2);
}
