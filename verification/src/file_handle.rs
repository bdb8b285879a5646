//! Portable file handles: opaque, fixed-maximum-size byte blobs that
//! identify a file on its originating mount, and their openable form bound
//! to a cached mount anchor.  A filesystem may refuse to produce a handle —
//! permanently, never transiently — and that refusal is a distinct success
//! variant, not an error.

use vstd::prelude::*;

use crate::mount_fd::{MountFdGet, MountFds};
use crate::oslib::{OsError, EOPNOTSUPP, EOVERFLOW};

verus! {

/// The largest handle the kernel may fill into the buffer handed to the
/// handle-derivation primitive.
pub const MAX_HANDLE_SZ: usize = 128;

/// A portable file handle: the kernel-issued opaque bytes with their type
/// tag, paired with the numeric identifier of the mount they were generated
/// on.  Two file handles are equal iff both fields are equal.  A handle
/// carries no descriptor and no open-file state.
#[derive(Debug)]
pub struct FileHandle {
    pub mnt_id: u64,
    pub handle_type: i32,
    pub handle: Vec<u8>,
}

/// The raw outcome of a successful handle-derivation call: the mount the
/// kernel reported, and the handle type and bytes it filled in.
#[derive(Debug)]
pub struct RawHandle {
    pub mnt_id: u64,
    pub handle_type: i32,
    pub bytes: Vec<u8>,
}

/// Whether two byte vectors hold the same bytes.
fn byte_vecs_eq(a: &Vec<u8>, b: &Vec<u8>) -> (r: bool)
    ensures
        r == (a@ == b@),
{
    if a.len() != b.len() {
        assert(a@ != b@);
        return false;
    }
    let n = a.len();
    let mut i: usize = 0;
    while i < n
        invariant
            n == a@.len(),
            n == b@.len(),
            0 <= i <= n,
            forall|j: int| 0 <= j < i ==> a@[j] == b@[j],
        decreases n - i,
    {
        if a[i] != b[i] {
            return false;
        }
        i += 1;
    }
    assert(a@ =~= b@);
    true
}

/// Copies a byte vector.
fn copy_bytes(a: &Vec<u8>) -> (r: Vec<u8>)
    ensures
        r@ == a@,
{
    let n = a.len();
    let mut out: Vec<u8> = Vec::new();
    let mut i: usize = 0;
    while i < n
        invariant
            n == a@.len(),
            0 <= i <= n,
            out@ == a@.subrange(0, i as int),
        decreases n - i,
    {
        out.push(a[i]);
        i += 1;
    }
    assert(out@ =~= a@);
    out
}

impl Clone for FileHandle {
    /// An exact copy: every field of the clone equals the original's.
    fn clone(&self) -> (r: FileHandle)
        ensures
            r.mnt_id == self.mnt_id,
            r.handle_type == self.handle_type,
            r.handle@ == self.handle@,
    {
        FileHandle {
            mnt_id: self.mnt_id,
            handle_type: self.handle_type,
            handle: copy_bytes(&self.handle),
        }
    }
}

impl PartialEq for FileHandle {
    fn eq(&self, other: &FileHandle) -> (r: bool) {
        self.mnt_id == other.mnt_id && self.handle_type == other.handle_type
            && byte_vecs_eq(&self.handle, &other.handle)
    }
}

impl Eq for FileHandle {}

impl vstd::std_specs::cmp::PartialEqSpecImpl for FileHandle {
    open spec fn obeys_eq_spec() -> bool {
        true
    }

    open spec fn eq_spec(&self, other: &FileHandle) -> bool {
        self.mnt_id == other.mnt_id && self.handle_type == other.handle_type
            && self.handle@ == other.handle@
    }
}

impl FileHandle {
    /// A handle fits the fixed-size buffer the kernel fills.
    pub open spec fn wf(&self) -> bool {
        self.handle@.len() <= MAX_HANDLE_SZ
    }

    /// Classifies the outcome of a handle-derivation call for the given
    /// file.  The two permanent-refusal error codes — filesystem without
    /// handle support, and a handle larger than the buffer — become the
    /// distinct "no handle possible" success variant, which callers use to
    /// fall back permanently to keeping a live descriptor; every other error
    /// propagates unchanged as a transient failure.
    pub fn from_name_at(sys: Result<RawHandle, i32>) -> (r: Result<Option<FileHandle>, OsError>)
        requires
            sys matches Ok(h) ==> h.bytes@.len() <= MAX_HANDLE_SZ,
        ensures
            sys matches Ok(h) ==> r matches Ok(Some(fh)) && fh.mnt_id == h.mnt_id
                && fh.handle_type == h.handle_type && fh.handle@ == h.bytes@ && fh.wf(),
            sys matches Err(e) ==> r == (if e == EOPNOTSUPP || e == EOVERFLOW {
                Ok::<Option<FileHandle>, OsError>(None)
            } else {
                Err::<Option<FileHandle>, OsError>(OsError { code: e })
            }),
    {
        match sys {
            Ok(h) => Ok(Some(FileHandle {
                mnt_id: h.mnt_id,
                handle_type: h.handle_type,
                handle: h.bytes,
            })),
            Err(e) => {
                if e == EOPNOTSUPP || e == EOVERFLOW {
                    Ok(None)
                } else {
                    Err(OsError { code: e })
                }
            },
        }
    }

    /// Classifies the outcome of deriving a handle for an open descriptor,
    /// which goes through the same derivation call with an empty path, and
    /// so draws the same distinctions.
    pub fn from_fd(sys: Result<RawHandle, i32>) -> (r: Result<Option<FileHandle>, OsError>)
        requires
            sys matches Ok(h) ==> h.bytes@.len() <= MAX_HANDLE_SZ,
        ensures
            sys matches Ok(h) ==> r matches Ok(Some(fh)) && fh.mnt_id == h.mnt_id
                && fh.handle_type == h.handle_type && fh.handle@ == h.bytes@ && fh.wf(),
            sys matches Err(e) ==> r == (if e == EOPNOTSUPP || e == EOVERFLOW {
                Ok::<Option<FileHandle>, OsError>(None)
            } else {
                Err::<Option<FileHandle>, OsError>(OsError { code: e })
            }),
    {
        FileHandle::from_name_at(sys)
    }

    /// Binds the handle to the anchor cached for its mount, yielding an
    /// openable copy; yields nothing when the cache holds no anchor for that
    /// mount yet, in which case the caller creates one first.
    pub fn to_openable(&self, mount_fds: &MountFds) -> (r: Option<OpenableFileHandle>)
        requires
            mount_fds.wf(),
        ensures
            r is Some <==> mount_fds.contains_mount(self.mnt_id),
            r matches Some(o) ==> {
                &&& o.handle.mnt_id == self.mnt_id
                &&& o.handle.handle_type == self.handle_type
                &&& o.handle.handle@ == self.handle@
                &&& o.mount_fd == mount_fds.anchor(self.mnt_id)
            },
    {
        match mount_fds.anchor_fd(self.mnt_id) {
            Some(fd) => Some(OpenableFileHandle { handle: self.clone(), mount_fd: fd }),
            None => None,
        }
    }

    /// Binds the handle to its mount's anchor, creating the anchor from
    /// `fresh` when the cache holds none yet: an existing anchor is reused
    /// and a supplied `fresh` descriptor comes back as surplus to close; a
    /// missing anchor is created from `fresh`; with neither, nothing is
    /// bound and the cache is left untouched.
    pub fn to_openable_with(&self, mount_fds: &mut MountFds, fresh: Option<i32>) -> (r: (
        Option<OpenableFileHandle>,
        Option<i32>,
    ))
        requires
            old(mount_fds).wf(),
            old(mount_fds).contains_mount(self.mnt_id) ==> old(mount_fds).count(self.mnt_id)
                < u64::MAX,
        ensures
            final(mount_fds).wf(),
            r.0 is Some <==> (old(mount_fds).contains_mount(self.mnt_id) || fresh is Some),
            r.0 matches Some(o) ==> {
                &&& o.handle.mnt_id == self.mnt_id
                &&& o.handle.handle_type == self.handle_type
                &&& o.handle.handle@ == self.handle@
                &&& final(mount_fds).contains_mount(self.mnt_id)
                &&& o.mount_fd == final(mount_fds).anchor(self.mnt_id)
            },
            old(mount_fds).contains_mount(self.mnt_id) ==> {
                &&& r.1 == fresh
                &&& final(mount_fds).anchor(self.mnt_id) == old(mount_fds).anchor(self.mnt_id)
                &&& final(mount_fds).count(self.mnt_id) == old(mount_fds).count(self.mnt_id) + 1
            },
            !old(mount_fds).contains_mount(self.mnt_id) && fresh is Some ==> {
                &&& r.1 is None
                &&& final(mount_fds).anchor(self.mnt_id) == fresh->0
                &&& final(mount_fds).count(self.mnt_id) == 1
            },
            !old(mount_fds).contains_mount(self.mnt_id) && fresh is None ==> {
                &&& r == (None::<OpenableFileHandle>, None::<i32>)
                &&& *final(mount_fds) == *old(mount_fds)
            },
            forall|id: u64| id != self.mnt_id ==> #[trigger] final(mount_fds).contains_mount(id)
                == old(mount_fds).contains_mount(id),
    {
        match mount_fds.get(self.mnt_id, fresh) {
            MountFdGet::Anchored { fd, surplus } => (
                Some(OpenableFileHandle { handle: self.clone(), mount_fd: fd }),
                surplus,
            ),
            MountFdGet::NoAnchor => (None, None),
        }
    }
}

/// A file handle bound to a live anchor descriptor for its mount, ready for
/// one re-open against that anchor.
#[derive(Debug)]
pub struct OpenableFileHandle {
    pub handle: FileHandle,
    pub mount_fd: i32,
}

/// Everything an open-by-handle call needs: the anchor to open against, the
/// handle's type and bytes, and the caller's open flags.
#[derive(Debug)]
pub struct OpenByHandleRequest {
    pub mount_fd: i32,
    pub handle_type: i32,
    pub handle_bytes: Vec<u8>,
    pub flags: i32,
}

impl OpenableFileHandle {
    /// The file handle this openable copy was made from.
    pub fn inner(&self) -> (r: &FileHandle)
        ensures
            r == &self.handle,
    {
        &self.handle
    }

    /// Assembles the open-by-handle call for this handle against its
    /// mount's anchor descriptor, with the caller's open flags.
    pub fn open_request(&self, flags: i32) -> (r: OpenByHandleRequest)
        ensures
            r.mount_fd == self.mount_fd,
            r.handle_type == self.handle.handle_type,
            r.handle_bytes@ == self.handle.handle@,
            r.flags == flags,
    {
        OpenByHandleRequest {
            mount_fd: self.mount_fd,
            handle_type: self.handle.handle_type,
            handle_bytes: copy_bytes(&self.handle.handle),
            flags,
        }
    }
}

/// A file reached either by a plain open descriptor or by a portable handle
/// bound to its mount's anchor.
#[derive(Debug)]
pub enum FileOrHandle {
    File(i32),
    Handle(OpenableFileHandle),
}

} // verus!
