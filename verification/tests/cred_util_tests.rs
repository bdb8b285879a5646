use passthrough_core::credentials::{drop_effective_cap, restore_creds, set_creds, CredStep};
use passthrough_core::oslib::EINVAL;
use passthrough_core::util::{
    classify_parent_poll, pid_file_content, pid_lock_check, wait_status_to_exit_code, ForkCheck,
    PidLockCheck, EXIT_FAILURE,
};

#[test]
fn switching_to_root_produces_no_guards_and_no_steps() {
    let (steps, uid_guard, gid_guard) = set_creds(0, 0);
    assert!(steps.is_empty());
    assert!(uid_guard.is_none());
    assert!(gid_guard.is_none());
}

#[test]
fn switching_to_nonzero_pair_switches_group_before_user() {
    let (steps, uid_guard, gid_guard) = set_creds(1000, 1000);
    assert_eq!(steps, vec![CredStep::SetEgid(1000), CredStep::SetEuid(1000)]);
    assert!(uid_guard.is_some());
    assert!(gid_guard.is_some());
}

#[test]
fn switching_only_one_id_plans_only_that_step() {
    let (steps, uid_guard, gid_guard) = set_creds(0, 77);
    assert_eq!(steps, vec![CredStep::SetEgid(77)]);
    assert!(uid_guard.is_none());
    assert!(gid_guard.is_some());

    let (steps, uid_guard, gid_guard) = set_creds(77, 0);
    assert_eq!(steps, vec![CredStep::SetEuid(77)]);
    assert!(uid_guard.is_some());
    assert!(gid_guard.is_none());
}

#[test]
fn releasing_guards_restores_both_ids_to_root() {
    let (_steps, uid_guard, gid_guard) = set_creds(1000, 1000);
    let restore = restore_creds(uid_guard, gid_guard);
    assert_eq!(restore, vec![CredStep::SetEuid(0), CredStep::SetEgid(0)]);
}

#[test]
fn releasing_no_guards_restores_nothing() {
    let (_steps, uid_guard, gid_guard) = set_creds(0, 0);
    let restore = restore_creds(uid_guard, gid_guard);
    assert!(restore.is_empty());
}

#[test]
fn unknown_capability_name_is_an_error() {
    assert_eq!(drop_effective_cap(None, false).unwrap_err().code, EINVAL);
    assert_eq!(drop_effective_cap(None, true).unwrap_err().code, EINVAL);
}

#[test]
fn capability_guard_only_for_a_present_capability() {
    // A capability that is not in the effective set needs no drop: no
    // guard, nothing to restore.
    assert!(drop_effective_cap(Some(1), false).unwrap().is_none());

    // A present capability is dropped, and releasing the guard yields the
    // same capability to re-add.
    let guard = drop_effective_cap(Some(1), true).unwrap().unwrap();
    assert_eq!(guard.cap(), 1);
    assert_eq!(guard.release(), 1);
}

#[test]
fn pid_file_content_is_decimal_with_newline() {
    assert_eq!(pid_file_content(0), b"0\n".to_vec());
    assert_eq!(pid_file_content(7), b"7\n".to_vec());
    assert_eq!(pid_file_content(12345), b"12345\n".to_vec());
    assert_eq!(pid_file_content(u32::MAX), b"4294967295\n".to_vec());
}

#[test]
fn pid_lock_check_accepts_only_matching_inode() {
    assert_eq!(pid_lock_check(42, Some(42)), PidLockCheck::Acquired);
    assert_eq!(pid_lock_check(42, Some(43)), PidLockCheck::Retry);
    assert_eq!(pid_lock_check(42, None), PidLockCheck::Retry);
}

#[test]
fn second_acquisition_succeeds_only_after_first_release() {
    // First caller: takes the lock, the path still names the locked file.
    let first = pid_lock_check(100, Some(100));
    assert_eq!(first, PidLockCheck::Acquired);
    let first_content = pid_file_content(501);
    assert_eq!(first_content, b"501\n".to_vec());

    // Second caller while the first holds the lock: its exclusive
    // non-blocking lock attempt fails at the OS, so it never reaches the
    // inode check and the acquisition errors out.
    let lock_attempt = passthrough_core::oslib::check_retval(-1);
    assert!(lock_attempt.is_err());

    // After the first caller's process ends and the lock is released, a
    // fresh acquisition by a new caller goes through and writes its own pid.
    let second = pid_lock_check(100, Some(100));
    assert_eq!(second, PidLockCheck::Acquired);
    let second_content = pid_file_content(502);
    assert_eq!(second_content, b"502\n".to_vec());
    assert_ne!(second_content, first_content);
}

#[test]
fn parent_poll_classification() {
    assert_eq!(classify_parent_poll(0, 0), ForkCheck::Proceed);
    assert_eq!(classify_parent_poll(1, 0), ForkCheck::ParentDied);
    assert_eq!(classify_parent_poll(-1, 4), ForkCheck::PollError(4));
}

#[test]
fn wait_status_translation() {
    // Normal exit with status 35: the status sits in the second byte.
    assert_eq!(wait_status_to_exit_code(35 << 8), 35);
    assert_eq!(wait_status_to_exit_code(0), 0);
    // Termination by signal 9 becomes the negative signal number.
    assert_eq!(wait_status_to_exit_code(9), -9);
    assert_eq!(wait_status_to_exit_code(15), -15);
    // A stopped-style status is neither an exit nor a signal termination.
    assert_eq!(wait_status_to_exit_code(0x7f), EXIT_FAILURE);
}
