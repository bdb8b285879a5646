use passthrough_core::file_handle::{FileHandle, RawHandle};
use passthrough_core::mount_fd::{MountFdGet, MountFds};
use passthrough_core::oslib::{ENOSYS, EOPNOTSUPP, EOVERFLOW};

fn raw(mnt_id: u64, handle_type: i32, bytes: &[u8]) -> RawHandle {
    RawHandle { mnt_id, handle_type, bytes: bytes.to_vec() }
}

#[test]
fn from_name_at_keeps_kernel_fields() {
    let fh = FileHandle::from_name_at(Ok(raw(7, 1, b"\x01\x02\x03"))).unwrap().unwrap();
    assert_eq!(fh.mnt_id, 7);
    assert_eq!(fh.handle_type, 1);
    assert_eq!(fh.handle, b"\x01\x02\x03".to_vec());
}

#[test]
fn from_name_at_treats_permanent_refusals_as_no_handle() {
    assert!(FileHandle::from_name_at(Err(EOPNOTSUPP)).unwrap().is_none());
    assert!(FileHandle::from_name_at(Err(EOVERFLOW)).unwrap().is_none());
}

#[test]
fn from_name_at_propagates_other_errors() {
    let err = FileHandle::from_name_at(Err(13)).unwrap_err();
    assert_eq!(err.code, 13);
    // A missing syscall is a transient-class failure, not a permanent
    // refusal: it propagates instead of becoming "no handle possible".
    assert_eq!(FileHandle::from_name_at(Err(ENOSYS)).unwrap_err().code, ENOSYS);
}

#[test]
fn from_fd_draws_the_same_distinctions() {
    let fh = FileHandle::from_fd(Ok(raw(3, 2, b"ab"))).unwrap().unwrap();
    assert_eq!(fh.mnt_id, 3);
    assert!(FileHandle::from_fd(Err(EOPNOTSUPP)).unwrap().is_none());
    assert_eq!(FileHandle::from_fd(Err(5)).unwrap_err().code, 5);
}

#[test]
fn handles_equal_iff_both_fields_equal() {
    let a = FileHandle::from_name_at(Ok(raw(7, 1, b"xy"))).unwrap().unwrap();
    let b = FileHandle::from_name_at(Ok(raw(7, 1, b"xy"))).unwrap().unwrap();
    let other_mount = FileHandle::from_name_at(Ok(raw(8, 1, b"xy"))).unwrap().unwrap();
    let other_type = FileHandle::from_name_at(Ok(raw(7, 2, b"xy"))).unwrap().unwrap();
    let other_bytes = FileHandle::from_name_at(Ok(raw(7, 1, b"xz"))).unwrap().unwrap();
    assert_eq!(a, b);
    assert_eq!(a, a.clone());
    assert!(a != other_mount);
    assert!(a != other_type);
    assert!(a != other_bytes);
}

#[test]
fn rederived_handle_identifies_the_same_file() {
    // Re-deriving a handle from the re-opened file yields the same raw
    // fields, so the handles compare equal and name one underlying file.
    let first = FileHandle::from_fd(Ok(raw(7, 1, b"inode"))).unwrap().unwrap();
    let rederived = FileHandle::from_fd(Ok(raw(7, 1, b"inode"))).unwrap().unwrap();
    assert_eq!(first, rederived);
}

#[test]
fn cache_creates_exactly_one_anchor_per_mount() {
    let mut cache = MountFds::new();
    let first = cache.get(1, Some(30));
    assert_eq!(first, MountFdGet::Anchored { fd: 30, surplus: None });
    let second = cache.get(2, Some(31));
    assert_eq!(second, MountFdGet::Anchored { fd: 31, surplus: None });

    // A racing second creation for mount 1 reuses the existing anchor and
    // hands the surplus descriptor back for closing.
    let racer = cache.get(1, Some(32));
    assert_eq!(racer, MountFdGet::Anchored { fd: 30, surplus: Some(32) });

    let observer = cache.get(1, None);
    assert_eq!(observer, MountFdGet::Anchored { fd: 30, surplus: None });
}

#[test]
fn cache_reports_missing_anchor() {
    let mut cache = MountFds::new();
    assert_eq!(cache.get(9, None), MountFdGet::NoAnchor);
    assert_eq!(cache.anchor_fd(9), None);
}

#[test]
fn cache_closes_anchor_only_on_last_release() {
    let mut cache = MountFds::new();
    cache.get(1, Some(40));
    cache.get(1, None);
    cache.get(1, None);
    assert_eq!(cache.release(1), None);
    assert_eq!(cache.release(1), None);
    assert_eq!(cache.release(1), Some(40));
    // The mount is gone now; a later request re-creates rather than reuses.
    assert_eq!(cache.get(1, None), MountFdGet::NoAnchor);
    assert_eq!(cache.get(1, Some(41)), MountFdGet::Anchored { fd: 41, surplus: None });
}

#[test]
fn cache_release_of_absent_mount_is_inert() {
    let mut cache = MountFds::new();
    assert_eq!(cache.release(5), None);
}

#[test]
fn to_openable_with_creates_or_reuses_the_anchor() {
    let mut cache = MountFds::new();
    let fh = FileHandle::from_name_at(Ok(raw(7, 1, b"h"))).unwrap().unwrap();

    // No anchor and nothing to create one from: nothing is bound.
    let (none, surplus) = fh.to_openable_with(&mut cache, None);
    assert!(none.is_none());
    assert!(surplus.is_none());

    // First binding creates the anchor from the fresh descriptor.
    let (first, surplus) = fh.to_openable_with(&mut cache, Some(60));
    assert_eq!(first.unwrap().mount_fd, 60);
    assert!(surplus.is_none());

    // A racing second binding reuses the anchor and returns the surplus.
    let (second, surplus) = fh.to_openable_with(&mut cache, Some(61));
    assert_eq!(second.unwrap().mount_fd, 60);
    assert_eq!(surplus, Some(61));
}

#[test]
fn to_openable_binds_handle_to_cached_anchor() {
    let mut cache = MountFds::new();
    let fh = FileHandle::from_name_at(Ok(raw(7, 1, b"h"))).unwrap().unwrap();
    assert!(fh.to_openable(&cache).is_none());

    cache.get(7, Some(50));
    let openable = fh.to_openable(&cache).unwrap();
    assert_eq!(openable.mount_fd, 50);
    assert_eq!(*openable.inner(), fh);

    let req = openable.open_request(0o100);
    assert_eq!(req.mount_fd, 50);
    assert_eq!(req.handle_type, 1);
    assert_eq!(req.handle_bytes, b"h".to_vec());
    assert_eq!(req.flags, 0o100);
}
