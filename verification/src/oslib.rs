//! Thin, panic-free layer over the operating-system primitives: return-value
//! checking, NUL-terminated string construction, and the request values for
//! the restricted-resolution open.

use vstd::prelude::*;

verus! {

/// `errno` value for an invalid argument (Linux ABI).
pub const EINVAL: i32 = 22;
/// `errno` value for a function not implemented by the kernel (Linux ABI).
pub const ENOSYS: i32 = 38;
/// `errno` value for a value too large for the supplied buffer (Linux ABI).
pub const EOVERFLOW: i32 = 75;
/// `errno` value for an operation not supported by the filesystem (Linux ABI).
pub const EOPNOTSUPP: i32 = 95;
/// A structured operating-system error carrying the OS-reported error code,
/// propagated to callers unchanged so they can map it onto the client-visible
/// protocol's own error codes.
#[derive(Clone, Copy, Debug, PartialEq, Eq, Structural)]
pub struct OsError {
    pub code: i32,
}

/// Relies on `std::io::Error::last_os_error`: reads the calling thread's
/// current `errno` value right after a failed OS call.
#[verifier::external_body]
fn last_os_errno() -> (r: i32) {
    std::io::Error::last_os_error().raw_os_error().unwrap_or(0)
}

/// Checks the return value of an OS call that signals failure with `-1`,
/// wrapping the sentinel into a structured error carrying the thread's
/// `errno` and passing every other value through unchanged.
pub fn check_retval(t: i64) -> (r: Result<i64, OsError>)
    ensures
        r is Err <==> t == -1,
        t != -1 ==> r == Ok::<i64, OsError>(t),
{
    if t == -1 {
        Err(OsError { code: last_os_errno() })
    } else {
        Ok(t)
    }
}

/// Whether the byte string holds a NUL byte anywhere, which makes it
/// unusable as a C path argument.
pub open spec fn has_nul(s: Seq<u8>) -> bool {
    exists|i: int| 0 <= i < s.len() && s[i] == 0u8
}

/// Builds the NUL-terminated form of a byte string for an OS call.  All such
/// strings originate from the core's own trusted construction, so an embedded
/// NUL is a caller contract violation, reported as an invalid-argument error
/// rather than a panic.
pub fn nul_terminated(s: &[u8]) -> (r: Result<Vec<u8>, OsError>)
    ensures
        r is Ok <==> !has_nul(s@),
        r matches Ok(v) ==> v@ == s@.push(0u8),
        r matches Err(e) ==> e.code == EINVAL,
{
    let mut out: Vec<u8> = Vec::new();
    let mut i: usize = 0;
    while i < s.len()
        invariant
            0 <= i <= s.len(),
            out@ == s@.subrange(0, i as int),
            forall|j: int| 0 <= j < i ==> s@[j] != 0u8,
        decreases s.len() - i,
    {
        if s[i] == 0 {
            return Err(OsError { code: EINVAL });
        }
        out.push(s[i]);
        i += 1;
    }
    assert(out@ == s@);
    out.push(0);
    Ok(out)
}

/// Basic facts about the running OS, such as available syscalls.  Computed
/// once at startup by probing and immutable thereafter; the resolution
/// strategy consults it to pick a code path.
pub struct OsFacts {
    pub has_openat2: bool,
}

impl OsFacts {
    /// Builds the feature record from the raw return value of a probing
    /// `openat2` call: any non-negative return is an open descriptor, so the
    /// syscall exists; any negative return means it is unavailable.
    pub fn from_probe(probe_ret: i64) -> (r: OsFacts)
        ensures
            r.has_openat2 == (probe_ret >= 0),
    {
        OsFacts { has_openat2: probe_ret >= 0 }
    }
}

/// How a client-supplied path will be resolved: confined to the base
/// directory by the restricted-resolution primitive, or by a conventional
/// open relative to the base, which gives no escape protection beyond
/// standard symlink-following semantics.
#[derive(Clone, Copy, Debug, PartialEq, Eq, Structural)]
pub enum ResolveStrategy {
    Strict,
    Fallback,
}

/// Picks the resolution code path from the one-time feature probe: the
/// strictly weaker fallback is used only when the restricted-resolution
/// primitive is unavailable on the running kernel, never as a silent
/// downgrade.
pub fn resolution_strategy(facts: &OsFacts) -> (r: ResolveStrategy)
    ensures
        r == ResolveStrategy::Strict <==> facts.has_openat2,
{
    if facts.has_openat2 {
        ResolveStrategy::Strict
    } else {
        ResolveStrategy::Fallback
    }
}

/// Resolution flag of `openat2`: treat the base directory as the filesystem
/// root while resolving, so resolution can never escape it (Linux ABI).
pub const RESOLVE_IN_ROOT: u64 = 0x10;
/// Resolution flag of `openat2`: disallow resolution through magic
/// (proc-style) symlinks (Linux ABI).
pub const RESOLVE_NO_MAGICLINKS: u64 = 0x02;
/// Open flag: do not follow a trailing symlink (Linux ABI, x86-64).
pub const O_NOFOLLOW: u64 = 0o400000;
/// Open flag: close the descriptor on exec (Linux ABI, x86-64).
pub const O_CLOEXEC: u64 = 0o2000000;

/// The argument record of an `openat2` call: open flags, file mode and
/// resolution restrictions, mirroring the kernel's `open_how` struct.
#[derive(Clone, Copy, Debug, PartialEq, Eq, Structural)]
pub struct OpenHow {
    pub flags: u64,
    pub mode: u64,
    pub resolve: u64,
}

/// The file mode an unrestricted `openat` call passes on: the caller's mode,
/// or zero when none was supplied.
pub fn openat_mode(mode: Option<u32>) -> (r: u64)
    ensures
        r == (match mode {
            Some(m) => m as u64,
            None => 0u64,
        }),
{
    match mode {
        Some(m) => m as u64,
        None => 0,
    }
}

/// Builds the `open_how` record for a strict, escape-proof open: resolution
/// is confined to the base directory and magic links are rejected, a
/// trailing symlink is not followed and the descriptor closes on exec, and
/// the requested mode is masked to the valid permission-bit range, which
/// the restricted primitive insists on while the unrestricted open ignores
/// the extra bits.
pub fn restricted_open_how(flags: i32, mode: Option<u32>) -> (r: OpenHow)
    requires
        flags >= 0,
    ensures
        r.resolve == RESOLVE_IN_ROOT | RESOLVE_NO_MAGICLINKS,
        r.mode == openat_mode_value(mode) & 0o7777,
        r.mode <= 0o7777,
        r.flags == (flags as u64) | O_NOFOLLOW | O_CLOEXEC,
{
    let base: u64 = openat_mode(mode);
    let m: u64 = base & 0o7777;
    assert(m <= 0o7777) by (bit_vector)
        requires m == base & 0o7777;
    OpenHow {
        flags: (flags as u64) | O_NOFOLLOW | O_CLOEXEC,
        mode: m,
        resolve: RESOLVE_IN_ROOT | RESOLVE_NO_MAGICLINKS,
    }
}

/// The mode value `openat_mode` yields, for use in proofs.
pub open spec fn openat_mode_value(mode: Option<u32>) -> u64 {
    match mode {
        Some(m) => m as u64,
        None => 0u64,
    }
}

/// The NUL-terminated argument strings of a `mount` call, each proven free
/// of interior NUL bytes; absent source or filesystem type becomes the empty
/// string, as the OS primitive expects.
#[derive(Debug)]
pub struct MountRequest {
    pub source: Vec<u8>,
    pub target: Vec<u8>,
    pub fstype: Vec<u8>,
    pub flags: u64,
}

/// The byte sequence a `mount` argument contributes: the given string, or
/// empty when absent.
pub open spec fn opt_bytes(s: Option<Seq<u8>>) -> Seq<u8> {
    match s {
        Some(b) => b,
        None => Seq::empty(),
    }
}

/// Validates and assembles the arguments of a `mount` call.  Fails with an
/// invalid-argument error exactly when one of the supplied strings holds an
/// embedded NUL byte.
pub fn mount_request(
    source: Option<&[u8]>,
    target: &[u8],
    fstype: Option<&[u8]>,
    flags: u64,
) -> (r: Result<MountRequest, OsError>)
    ensures
        r is Ok <==> (!has_nul(opt_bytes(match source {
            Some(s) => Some(s@),
            None => None,
        })) && !has_nul(target@) && !has_nul(opt_bytes(match fstype {
            Some(s) => Some(s@),
            None => None,
        }))),
        r matches Ok(m) ==> {
            &&& m.source@ == opt_bytes(match source {
                Some(s) => Some(s@),
                None => None,
            }).push(0u8)
            &&& m.target@ == target@.push(0u8)
            &&& m.fstype@ == opt_bytes(match fstype {
                Some(s) => Some(s@),
                None => None,
            }).push(0u8)
            &&& m.flags == flags
        },
        r matches Err(e) ==> e.code == EINVAL,
{
    let empty: [u8; 0] = [];
    let src: &[u8] = match source {
        Some(s) => s,
        None => empty.as_slice(),
    };
    let fst: &[u8] = match fstype {
        Some(s) => s,
        None => empty.as_slice(),
    };
    let source = nul_terminated(src)?;
    let target = nul_terminated(target)?;
    let fstype = nul_terminated(fst)?;
    Ok(MountRequest { source, target, fstype, flags })
}

/// Validates and assembles the argument of an `umount2` call: the target
/// path NUL-terminated, failing exactly on an embedded NUL.
pub fn umount2_request(target: &[u8], flags: i32) -> (r: Result<(Vec<u8>, i32), OsError>)
    ensures
        r is Ok <==> !has_nul(target@),
        r matches Ok(t) ==> t.0@ == target@.push(0u8) && t.1 == flags,
        r matches Err(e) ==> e.code == EINVAL,
{
    let t = nul_terminated(target)?;
    Ok((t, flags))
}

/// A scoped file creation mask: holds the previous mask that was in force
/// so that it can be re-established when the scope ends.
pub struct ScopedUmask {
    umask: u32,
}

impl ScopedUmask {
    /// Records the mask that a fresh `umask` call displaced.
    pub fn new(previous: u32) -> (r: ScopedUmask)
        ensures
            r.saved() == previous,
    {
        ScopedUmask { umask: previous }
    }

    /// The mask to re-establish when the scope ends.
    pub closed spec fn saved(&self) -> u32 {
        self.umask
    }

    /// Hands back the displaced mask for restoration.
    pub fn restore(self) -> (r: u32)
        ensures
            r == self.saved(),
    {
        self.umask
    }
}

} // verus!
