//! Process supervision helpers: exclusive PID-file acquisition decisions,
//! the decimal PID-file content, parent-death detection after a double
//! fork, and translation of a child's wait status into an exit code.

use vstd::prelude::*;

verus! {

/// The generic failure exit code (Linux ABI).
pub const EXIT_FAILURE: i32 = 1;

/// The decimal digits of a number, most significant first.
pub open spec fn dec_digits(n: nat) -> Seq<u8>
    decreases n,
{
    if n < 10 {
        seq![(48 + n) as u8]
    } else {
        dec_digits(n / 10).push((48 + n % 10) as u8)
    }
}

/// Appends the decimal digits of `n` to `out`.
fn push_decimal(n: u32, out: &mut Vec<u8>)
    ensures
        final(out)@ == old(out)@ + dec_digits(n as nat),
    decreases n,
{
    if n < 10 {
        out.push(48 + n as u8);
        assert(out@ =~= old(out)@ + dec_digits(n as nat));
    } else {
        push_decimal(n / 10, out);
        out.push(48 + (n % 10) as u8);
        assert(out@ =~= old(out)@ + dec_digits(n as nat));
    }
}

/// The bytes written into an acquired PID file: the process id as decimal
/// text followed by a newline.
pub fn pid_file_content(pid: u32) -> (r: Vec<u8>)
    ensures
        r@ == dec_digits(pid as nat).push(10u8),
{
    let mut out: Vec<u8> = Vec::new();
    push_decimal(pid, &mut out);
    out.push(10);
    out
}

/// The verdict on one round of PID-file acquisition, after the lock was
/// taken: either the locked file is still the one the path names, or the
/// path was replaced concurrently and the acquisition must start over.
#[derive(Clone, Copy, Debug, PartialEq, Eq, Structural)]
pub enum PidLockCheck {
    Acquired,
    Retry,
}

/// Decides whether a freshly locked PID file is still reachable at its
/// path: the lock holds exactly when the path still names the locked file's
/// inode; a vanished path or a different inode means another process raced
/// us and the acquisition loop must retry from the top.
pub fn pid_lock_check(locked_ino: u64, path_ino: Option<u64>) -> (r: PidLockCheck)
    ensures
        r == PidLockCheck::Acquired <==> path_ino == Some(locked_ino),
{
    match path_ino {
        Some(ino) => {
            if ino == locked_ino {
                PidLockCheck::Acquired
            } else {
                PidLockCheck::Retry
            }
        },
        None => PidLockCheck::Retry,
    }
}

/// What the forked child concludes from polling the pre-fork parent
/// descriptor: go on, the parent already exited, or the poll itself failed.
#[derive(Clone, Copy, Debug, PartialEq, Eq, Structural)]
pub enum ForkCheck {
    Proceed,
    ParentDied,
    PollError(i32),
}

/// Classifies the child's poll of the descriptor opened for the parent
/// before forking: a failed poll carries the OS error, no ready descriptor
/// means the parent is still alive, and a ready descriptor means the parent
/// exited between the descriptor being opened and death-signal registration
/// taking effect.
pub fn classify_parent_poll(num_fds: i32, errno: i32) -> (r: ForkCheck)
    ensures
        num_fds == -1 ==> r == ForkCheck::PollError(errno),
        num_fds == 0 ==> r == ForkCheck::Proceed,
        num_fds != -1 && num_fds != 0 ==> r == ForkCheck::ParentDied,
{
    if num_fds == -1 {
        ForkCheck::PollError(errno)
    } else if num_fds == 0 {
        ForkCheck::Proceed
    } else {
        ForkCheck::ParentDied
    }
}

/// Whether the wait status reports a normal exit.
pub open spec fn spec_exited(status: i32) -> bool {
    status & 0x7f == 0
}

/// The exit status carried by a normal-exit wait status.
pub open spec fn spec_exit_status(status: i32) -> i32 {
    (status >> 8) & 0xff
}

/// Whether the wait status reports termination by a signal: the low bits
/// hold a signal number, not zero and not the stopped marker.
pub open spec fn spec_signaled(status: i32) -> bool {
    1 <= status & 0x7f < 0x7f
}

/// The signal number carried by a signal-termination wait status.
pub open spec fn spec_term_signal(status: i32) -> i32 {
    status & 0x7f
}

/// Relies on libc::WIFEXITED: true exactly when the status's low seven
/// bits are clear.
pub assume_specification[ libc::WIFEXITED ](status: libc::c_int) -> (r: bool)
    ensures
        r == spec_exited(status),
;

/// Relies on libc::WEXITSTATUS: the exit status is the next eight bits
/// above the low byte.
pub assume_specification[ libc::WEXITSTATUS ](status: libc::c_int) -> (r: libc::c_int)
    ensures
        r == spec_exit_status(status),
;

/// Relies on libc::WIFSIGNALED: its source compares the low seven bits
/// plus one, as a signed byte, against two, which holds exactly for values
/// between one and the stopped marker.
pub assume_specification[ libc::WIFSIGNALED ](status: libc::c_int) -> (r: bool)
    ensures
        r == spec_signaled(status),
;

/// Relies on libc::WTERMSIG: the terminating signal is the status's low
/// seven bits.
pub assume_specification[ libc::WTERMSIG ](status: libc::c_int) -> (r: libc::c_int)
    ensures
        r == spec_term_signal(status),
;

/// Translates the wait status of the forked child into the parent's own
/// exit code: a normal exit status passes through, termination by a signal
/// becomes the negative signal number, and any unrecognized status becomes
/// the generic failure code.
pub fn wait_status_to_exit_code(status: i32) -> (r: i32)
    ensures
        spec_exited(status) ==> r == spec_exit_status(status),
        !spec_exited(status) && spec_signaled(status) ==> r == -spec_term_signal(status),
        !spec_exited(status) && !spec_signaled(status) ==> r == EXIT_FAILURE,
{
    if libc::WIFEXITED(status) {
        libc::WEXITSTATUS(status)
    } else if libc::WIFSIGNALED(status) {
        let signal = libc::WTERMSIG(status);
        assert(0 <= status & 0x7f <= 0x7f) by (bit_vector);
        -signal
    } else {
        EXIT_FAILURE
    }
}

} // verus!

