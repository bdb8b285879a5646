use passthrough_core::oslib::{
    check_retval, mount_request, nul_terminated, openat_mode, resolution_strategy,
    restricted_open_how, umount2_request, OsFacts, ResolveStrategy, ScopedUmask, EINVAL,
    O_CLOEXEC, O_NOFOLLOW, RESOLVE_IN_ROOT, RESOLVE_NO_MAGICLINKS,
};

#[test]
fn fallback_resolution_only_without_the_restricted_primitive() {
    assert_eq!(resolution_strategy(&OsFacts::from_probe(3)), ResolveStrategy::Strict);
    assert_eq!(resolution_strategy(&OsFacts::from_probe(-1)), ResolveStrategy::Fallback);
}

#[test]
fn check_retval_passes_success_values_through() {
    assert_eq!(check_retval(0).unwrap(), 0);
    assert_eq!(check_retval(7).unwrap(), 7);
    assert_eq!(check_retval(-2).unwrap(), -2);
}

#[test]
fn check_retval_turns_sentinel_into_error() {
    assert!(check_retval(-1).is_err());
}

#[test]
fn nul_terminated_appends_terminator() {
    let r = nul_terminated(b"etc").unwrap();
    assert_eq!(r, b"etc\0".to_vec());
    let empty = nul_terminated(b"").unwrap();
    assert_eq!(empty, b"\0".to_vec());
}

#[test]
fn nul_terminated_rejects_embedded_nul() {
    let err = nul_terminated(b"et\0c").unwrap_err();
    assert_eq!(err.code, EINVAL);
    assert!(nul_terminated(b"\0").is_err());
}

#[test]
fn os_facts_from_probe() {
    assert!(OsFacts::from_probe(3).has_openat2);
    assert!(OsFacts::from_probe(0).has_openat2);
    assert!(!OsFacts::from_probe(-1).has_openat2);
    assert!(!OsFacts::from_probe(-38).has_openat2);
}

#[test]
fn openat_mode_defaults_to_zero() {
    assert_eq!(openat_mode(None), 0);
    assert_eq!(openat_mode(Some(0o644)), 0o644);
}

#[test]
fn restricted_open_how_masks_mode_and_confines_resolution() {
    let how = restricted_open_how(0, Some(0o170644));
    assert_eq!(how.mode, 0o0644);
    assert_eq!(how.flags, O_NOFOLLOW | O_CLOEXEC);
    assert_eq!(how.resolve, RESOLVE_IN_ROOT | RESOLVE_NO_MAGICLINKS);
    assert_eq!(how.resolve, 0x12);

    let how2 = restricted_open_how(0o2, None);
    assert_eq!(how2.mode, 0);
    assert_eq!(how2.flags, 0o2 | O_NOFOLLOW | O_CLOEXEC);
    assert_eq!(how2.resolve, RESOLVE_IN_ROOT | RESOLVE_NO_MAGICLINKS);
}

#[test]
fn mount_request_assembles_nul_terminated_strings() {
    let m = mount_request(Some(b"src"), b"/mnt", Some(b"tmpfs"), 42).unwrap();
    assert_eq!(m.source, b"src\0".to_vec());
    assert_eq!(m.target, b"/mnt\0".to_vec());
    assert_eq!(m.fstype, b"tmpfs\0".to_vec());
    assert_eq!(m.flags, 42);
}

#[test]
fn mount_request_defaults_absent_strings_to_empty() {
    let m = mount_request(None, b"/mnt", None, 0).unwrap();
    assert_eq!(m.source, b"\0".to_vec());
    assert_eq!(m.fstype, b"\0".to_vec());
}

#[test]
fn mount_request_rejects_embedded_nul() {
    assert_eq!(mount_request(Some(b"s\0rc"), b"/mnt", None, 0).unwrap_err().code, EINVAL);
    assert_eq!(mount_request(None, b"/m\0nt", None, 0).unwrap_err().code, EINVAL);
    assert_eq!(mount_request(None, b"/mnt", Some(b"tmp\0fs"), 0).unwrap_err().code, EINVAL);
}

#[test]
fn umount2_request_carries_flags() {
    let (target, flags) = umount2_request(b"/mnt", 2).unwrap();
    assert_eq!(target, b"/mnt\0".to_vec());
    assert_eq!(flags, 2);
    assert_eq!(umount2_request(b"/m\0nt", 0).unwrap_err().code, EINVAL);
}

#[test]
fn scoped_umask_hands_back_displaced_mask() {
    let guard = ScopedUmask::new(0o022);
    assert_eq!(guard.restore(), 0o022);
}
