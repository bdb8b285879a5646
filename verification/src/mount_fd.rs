//! The mount-anchor cache: a mapping from mount identifier to a reference-
//! counted anchor descriptor used as the base for re-opening file handles on
//! that mount.  At most one anchor ever exists per mount id; an anchor is
//! closed only when its count reaches zero, and a later request for the same
//! id triggers re-creation rather than reuse of a stale descriptor.
//!
//! The structure itself is sequential; callers that share it across threads
//! serialize access around it, which linearizes creation per mount id.

use vstd::prelude::*;

verus! {

/// One cached anchor: the mount it belongs to, its non-data-access
/// descriptor, and how many openable handles currently hold it.
#[derive(Clone, Copy, Debug, PartialEq, Eq, Structural)]
pub struct MountEntry {
    pub mnt_id: u64,
    pub fd: i32,
    pub refcount: u64,
}

/// What an acquisition attempt yielded: an anchor to use (with any surplus
/// descriptor the caller must close because another caller won the creation
/// race), or the report that no anchor exists and none was supplied.
#[derive(Clone, Copy, Debug, PartialEq, Eq, Structural)]
pub enum MountFdGet {
    Anchored { fd: i32, surplus: Option<i32> },
    NoAnchor,
}

/// No two entries of the sequence describe the same mount.
pub open spec fn unique_mounts(s: Seq<MountEntry>) -> bool {
    forall|i: int, j: int|
        0 <= i < s.len() && 0 <= j < s.len()
            && #[trigger] s[i].mnt_id == #[trigger] s[j].mnt_id ==> i == j
}

/// The cache of per-mount anchor descriptors.
pub struct MountFds {
    entries: Vec<MountEntry>,
}

impl MountFds {
    /// The cache's contents as a sequence of entries.
    pub closed spec fn view(&self) -> Seq<MountEntry> {
        self.entries@
    }

    /// Well-formedness: no two entries describe the same mount, and every
    /// held anchor is held by at least one openable handle.
    pub open spec fn wf(&self) -> bool {
        &&& unique_mounts(self.view())
        &&& forall|i: int| 0 <= i < self.view().len() ==> #[trigger] self.view()[i].refcount >= 1
    }

    /// Whether the cache holds an anchor for this mount.
    pub open spec fn contains_mount(&self, id: u64) -> bool {
        exists|i: int| 0 <= i < self.view().len() && #[trigger] self.view()[i].mnt_id == id
    }

    /// The index of the entry for this mount, where one exists.
    pub open spec fn mount_idx(&self, id: u64) -> int {
        choose|i: int| 0 <= i < self.view().len() && #[trigger] self.view()[i].mnt_id == id
    }

    /// The anchor descriptor cached for this mount, where one exists.
    pub open spec fn anchor(&self, id: u64) -> i32 {
        self.view()[self.mount_idx(id)].fd
    }

    /// The reference count of this mount's anchor, where one exists.
    pub open spec fn count(&self, id: u64) -> u64 {
        self.view()[self.mount_idx(id)].refcount
    }

    /// An empty cache: no mount has an anchor.
    pub fn new() -> (r: MountFds)
        ensures
            r.wf(),
            r.view().len() == 0,
            forall|id: u64| !r.contains_mount(id),
    {
        MountFds { entries: Vec::new() }
    }

    /// Law: the cache never holds two anchors for the same mount id — any
    /// two entries for one id are the same entry.
    pub proof fn lemma_at_most_one_anchor(&self, id: u64)
        requires
            self.wf(),
        ensures
            forall|i: int, j: int|
                0 <= i < self.view().len() && 0 <= j < self.view().len()
                    && self.view()[i].mnt_id == id && self.view()[j].mnt_id == id ==> i == j,
    {
    }

    /// Looks up the anchor descriptor cached for `mnt_id` without taking a
    /// hold on it.
    pub fn anchor_fd(&self, mnt_id: u64) -> (r: Option<i32>)
        requires
            self.wf(),
        ensures
            r is Some <==> self.contains_mount(mnt_id),
            r matches Some(fd) ==> fd == self.anchor(mnt_id),
    {
        let n = self.entries.len();
        let mut i: usize = 0;
        while i < n
            invariant
                self.wf(),
                n == self.entries@.len(),
                0 <= i <= n,
                forall|j: int| 0 <= j < i ==> #[trigger] self.entries@[j].mnt_id != mnt_id,
            decreases n - i,
        {
            if self.entries[i].mnt_id == mnt_id {
                proof {
                    self.lemma_lookup_agrees(mnt_id, i as int);
                }
                return Some(self.entries[i].fd);
            }
            i += 1;
        }
        assert(!self.contains_mount(mnt_id));
        None
    }

    /// Acquires the anchor for `mnt_id`, creating it from `fresh` when none
    /// exists yet.  An existing anchor is reused with its count raised, and a
    /// supplied `fresh` descriptor comes back as surplus for the caller to
    /// close; a missing anchor is created from `fresh` with count one; with
    /// no anchor and no `fresh` descriptor the cache is left untouched.
    pub fn get(&mut self, mnt_id: u64, fresh: Option<i32>) -> (r: MountFdGet)
        requires
            old(self).wf(),
            old(self).contains_mount(mnt_id) ==> old(self).count(mnt_id) < u64::MAX,
        ensures
            final(self).wf(),
            old(self).contains_mount(mnt_id) ==> {
                &&& r == (MountFdGet::Anchored { fd: old(self).anchor(mnt_id), surplus: fresh })
                &&& final(self).view().len() == old(self).view().len()
                &&& final(self).contains_mount(mnt_id)
                &&& final(self).anchor(mnt_id) == old(self).anchor(mnt_id)
                &&& final(self).count(mnt_id) == old(self).count(mnt_id) + 1
            },
            !old(self).contains_mount(mnt_id) && fresh is Some ==> {
                &&& r == (MountFdGet::Anchored { fd: fresh->0, surplus: None::<i32> })
                &&& final(self).view().len() == old(self).view().len() + 1
                &&& final(self).contains_mount(mnt_id)
                &&& final(self).anchor(mnt_id) == fresh->0
                &&& final(self).count(mnt_id) == 1
            },
            !old(self).contains_mount(mnt_id) && fresh is None ==> {
                &&& r == MountFdGet::NoAnchor
                &&& *final(self) == *old(self)
            },
            forall|id: u64| id != mnt_id ==> #[trigger] final(self).contains_mount(id)
                == old(self).contains_mount(id),
            forall|id: u64| id != mnt_id && old(self).contains_mount(id) ==> {
                &&& #[trigger] final(self).anchor(id) == old(self).anchor(id)
                &&& final(self).count(id) == old(self).count(id)
            },
    {
        let n = self.entries.len();
        let mut i: usize = 0;
        while i < n
            invariant
                *self == *old(self),
                old(self).wf(),
                old(self).contains_mount(mnt_id) ==> old(self).count(mnt_id) < u64::MAX,
                n == self.entries@.len(),
                0 <= i <= n,
                forall|j: int| 0 <= j < i ==> #[trigger] self.entries@[j].mnt_id != mnt_id,
            decreases n - i,
        {
            if self.entries[i].mnt_id == mnt_id {
                let fd = self.entries[i].fd;
                let rc = self.entries[i].refcount;
                proof {
                    self.lemma_lookup_agrees(mnt_id, i as int);
                }
                let ghost pre = self.entries@;
                self.entries[i].refcount = rc + 1;
                proof {
                    self.lemma_replace_keeps_others(pre, i as int, mnt_id);
                    self.lemma_lookup_agrees(mnt_id, i as int);
                }
                return MountFdGet::Anchored { fd, surplus: fresh };
            }
            i += 1;
        }
        assert(!self.contains_mount(mnt_id));
        match fresh {
            Some(fd) => {
                let ghost pre = self.entries@;
                let entry = MountEntry { mnt_id, fd, refcount: 1 };
                self.entries.push(entry);
                proof {
                    self.lemma_extend_keeps_others(pre, mnt_id);
                    self.lemma_lookup_agrees(mnt_id, pre.len() as int);
                }
                MountFdGet::Anchored { fd, surplus: None }
            },
            None => MountFdGet::NoAnchor,
        }
    }

    /// Releases one hold on the anchor for `mnt_id`.  When the last hold
    /// goes, the entry leaves the cache and the descriptor to close comes
    /// back; otherwise the count drops by one.  Releasing a mount that has no
    /// anchor changes nothing.
    pub fn release(&mut self, mnt_id: u64) -> (r: Option<i32>)
        requires
            old(self).wf(),
        ensures
            final(self).wf(),
            !old(self).contains_mount(mnt_id) ==> r is None && *final(self) == *old(self),
            old(self).contains_mount(mnt_id) && old(self).count(mnt_id) > 1 ==> {
                &&& r is None
                &&& final(self).contains_mount(mnt_id)
                &&& final(self).anchor(mnt_id) == old(self).anchor(mnt_id)
                &&& final(self).count(mnt_id) == old(self).count(mnt_id) - 1
                &&& final(self).view().len() == old(self).view().len()
            },
            old(self).contains_mount(mnt_id) && old(self).count(mnt_id) == 1 ==> {
                &&& r == Some(old(self).anchor(mnt_id))
                &&& !final(self).contains_mount(mnt_id)
                &&& final(self).view().len() == old(self).view().len() - 1
            },
            forall|id: u64| id != mnt_id ==> #[trigger] final(self).contains_mount(id)
                == old(self).contains_mount(id),
            forall|id: u64| id != mnt_id && old(self).contains_mount(id) ==> {
                &&& #[trigger] final(self).anchor(id) == old(self).anchor(id)
                &&& final(self).count(id) == old(self).count(id)
            },
    {
        let n = self.entries.len();
        let mut i: usize = 0;
        while i < n
            invariant
                *self == *old(self),
                old(self).wf(),
                n == self.entries@.len(),
                0 <= i <= n,
                forall|j: int| 0 <= j < i ==> #[trigger] self.entries@[j].mnt_id != mnt_id,
            decreases n - i,
        {
            if self.entries[i].mnt_id == mnt_id {
                let fd = self.entries[i].fd;
                let rc = self.entries[i].refcount;
                proof {
                    self.lemma_lookup_agrees(mnt_id, i as int);
                }
                if rc == 1 {
                    let ghost pre = self.entries@;
                    self.entries.remove(i);
                    proof {
                        self.lemma_remove_keeps_others(pre, i as int, mnt_id);
                    }
                    return Some(fd);
                } else {
                    let ghost pre = self.entries@;
                    self.entries[i].refcount = rc - 1;
                    proof {
                        self.lemma_replace_keeps_others(pre, i as int, mnt_id);
                        self.lemma_lookup_agrees(mnt_id, i as int);
                    }
                    return None;
                }
            }
            i += 1;
        }
        assert(!self.contains_mount(mnt_id));
        None
    }

    /// Where an entry for `id` is known to sit at index `i` in a well-formed
    /// cache, the lookup specs all describe that entry.
    proof fn lemma_lookup_agrees(&self, id: u64, i: int)
        requires
            self.wf(),
            0 <= i < self.view().len(),
            self.view()[i].mnt_id == id,
        ensures
            self.contains_mount(id),
            self.mount_idx(id) == i,
            self.anchor(id) == self.view()[i].fd,
            self.count(id) == self.view()[i].refcount,
    {
    }

    /// Replacing the entry at index `i` by one for the same mount with a
    /// positive count keeps the cache well formed and leaves every other
    /// mount's presence, anchor and count as they were.
    proof fn lemma_replace_keeps_others(&self, pre: Seq<MountEntry>, i: int, changed_id: u64)
        requires
            0 <= i < pre.len(),
            self.view().len() == pre.len(),
            forall|j: int| 0 <= j < pre.len() && j != i ==> self.view()[j] == pre[j],
            self.view()[i].mnt_id == changed_id,
            self.view()[i].refcount >= 1,
            pre[i].mnt_id == changed_id,
            unique_mounts(pre),
            forall|p: int| 0 <= p < pre.len() ==> #[trigger] pre[p].refcount >= 1,
        ensures
            self.wf(),
            forall|id: u64| id != changed_id ==> #[trigger] self.contains_mount(id)
                == (exists|k: int| 0 <= k < pre.len() && #[trigger] pre[k].mnt_id == id),
            forall|id: u64| id != changed_id && self.contains_mount(id) ==> {
                &&& #[trigger] self.anchor(id)
                    == pre[choose|k: int| 0 <= k < pre.len() && pre[k].mnt_id == id].fd
                &&& self.count(id)
                    == pre[choose|k: int| 0 <= k < pre.len() && pre[k].mnt_id == id].refcount
            },
    {
        assert forall|p: int, q: int|
            0 <= p < self.view().len() && 0 <= q < self.view().len()
                && #[trigger] self.view()[p].mnt_id == #[trigger] self.view()[q].mnt_id
            implies p == q by {
            assert(pre[p].mnt_id == self.view()[p].mnt_id);
            assert(pre[q].mnt_id == self.view()[q].mnt_id);
        }
        assert forall|j: int| 0 <= j < self.view().len()
            implies #[trigger] self.view()[j].refcount >= 1 by {
            if j != i {
                assert(self.view()[j] == pre[j]);
                assert(pre[j].refcount >= 1);
            }
        }
        assert forall|id: u64| id != changed_id && self.contains_mount(id)
            implies exists|k: int| 0 <= k < pre.len() && #[trigger] pre[k].mnt_id == id by {
            let m = self.mount_idx(id);
            assert(0 <= m < self.view().len() && self.view()[m].mnt_id == id);
            assert(m != i);
            assert(pre[m].mnt_id == id);
        }
        assert forall|id: u64| id != changed_id
            && (exists|k: int| 0 <= k < pre.len() && #[trigger] pre[k].mnt_id == id)
            implies self.contains_mount(id) by {
            let k = choose|k: int| 0 <= k < pre.len() && pre[k].mnt_id == id;
            assert(k != i);
            assert(self.view()[k].mnt_id == id);
        }
        assert forall|id: u64| id != changed_id && self.contains_mount(id) implies {
            &&& self.anchor(id)
                == pre[choose|k: int| 0 <= k < pre.len() && pre[k].mnt_id == id].fd
            &&& self.count(id)
                == pre[choose|k: int| 0 <= k < pre.len() && pre[k].mnt_id == id].refcount
        } by {
            let m = self.mount_idx(id);
            assert(0 <= m < self.view().len() && self.view()[m].mnt_id == id);
            assert(m != i);
            assert(pre[m].mnt_id == id);
            let k = choose|k: int| 0 <= k < pre.len() && pre[k].mnt_id == id;
            assert(k == m);
        }
    }

    /// Appending an entry for a mount not yet present keeps the cache well
    /// formed and leaves every other mount's presence, anchor and count as
    /// they were.
    proof fn lemma_extend_keeps_others(&self, pre: Seq<MountEntry>, new_id: u64)
        requires
            self.view().len() == pre.len() + 1,
            forall|j: int| 0 <= j < pre.len() ==> self.view()[j] == pre[j],
            self.view()[pre.len() as int].mnt_id == new_id,
            self.view()[pre.len() as int].refcount >= 1,
            forall|j: int| 0 <= j < pre.len() ==> #[trigger] pre[j].mnt_id != new_id,
            unique_mounts(pre),
            forall|p: int| 0 <= p < pre.len() ==> #[trigger] pre[p].refcount >= 1,
        ensures
            self.wf(),
            forall|id: u64| id != new_id ==> #[trigger] self.contains_mount(id)
                == (exists|k: int| 0 <= k < pre.len() && #[trigger] pre[k].mnt_id == id),
            forall|id: u64| id != new_id && self.contains_mount(id) ==> {
                &&& #[trigger] self.anchor(id)
                    == pre[choose|k: int| 0 <= k < pre.len() && pre[k].mnt_id == id].fd
                &&& self.count(id)
                    == pre[choose|k: int| 0 <= k < pre.len() && pre[k].mnt_id == id].refcount
            },
    {
        assert forall|p: int, q: int|
            0 <= p < self.view().len() && 0 <= q < self.view().len()
                && #[trigger] self.view()[p].mnt_id == #[trigger] self.view()[q].mnt_id
            implies p == q by {
            if p < pre.len() && q < pre.len() {
                assert(pre[p].mnt_id == pre[q].mnt_id);
            } else if p < pre.len() && q == pre.len() as int {
                assert(pre[p].mnt_id != new_id);
                assert(self.view()[q].mnt_id == new_id);
                assert(false);
            } else if q < pre.len() && p == pre.len() as int {
                assert(pre[q].mnt_id != new_id);
                assert(self.view()[p].mnt_id == new_id);
                assert(false);
            }
        }
        assert forall|j: int| 0 <= j < self.view().len()
            implies #[trigger] self.view()[j].refcount >= 1 by {
            if j < pre.len() {
                assert(self.view()[j] == pre[j]);
                assert(pre[j].refcount >= 1);
            }
        }
        assert forall|id: u64| id != new_id && self.contains_mount(id)
            implies exists|k: int| 0 <= k < pre.len() && #[trigger] pre[k].mnt_id == id by {
            let m = self.mount_idx(id);
            assert(0 <= m < self.view().len() && self.view()[m].mnt_id == id);
            assert(m != pre.len() as int);
            assert(pre[m].mnt_id == id);
        }
        assert forall|id: u64| id != new_id
            && (exists|k: int| 0 <= k < pre.len() && #[trigger] pre[k].mnt_id == id)
            implies self.contains_mount(id) by {
            let k = choose|k: int| 0 <= k < pre.len() && pre[k].mnt_id == id;
            assert(self.view()[k].mnt_id == id);
        }
        assert forall|id: u64| id != new_id && self.contains_mount(id) implies {
            &&& self.anchor(id)
                == pre[choose|k: int| 0 <= k < pre.len() && pre[k].mnt_id == id].fd
            &&& self.count(id)
                == pre[choose|k: int| 0 <= k < pre.len() && pre[k].mnt_id == id].refcount
        } by {
            let m = self.mount_idx(id);
            assert(0 <= m < self.view().len() && self.view()[m].mnt_id == id);
            assert(m != pre.len() as int);
            assert(pre[m].mnt_id == id);
            let k = choose|k: int| 0 <= k < pre.len() && pre[k].mnt_id == id;
            assert(k == m);
        }
    }

    /// Removing the one entry of `removed_id` at index `i` leaves every
    /// other mount's presence, anchor and count as they were.
    proof fn lemma_remove_keeps_others(&self, pre: Seq<MountEntry>, i: int, removed_id: u64)
        requires
            0 <= i < pre.len(),
            self.view() == pre.remove(i),
            pre[i].mnt_id == removed_id,
            unique_mounts(pre),
            forall|p: int| 0 <= p < pre.len() ==> #[trigger] pre[p].refcount >= 1,
        ensures
            self.wf(),
            !self.contains_mount(removed_id),
            forall|id: u64| id != removed_id ==> #[trigger] self.contains_mount(id)
                == (exists|k: int| 0 <= k < pre.len() && #[trigger] pre[k].mnt_id == id),
            forall|id: u64| id != removed_id && self.contains_mount(id) ==> {
                &&& #[trigger] self.anchor(id)
                    == pre[choose|k: int| 0 <= k < pre.len() && pre[k].mnt_id == id].fd
                &&& self.count(id)
                    == pre[choose|k: int| 0 <= k < pre.len() && pre[k].mnt_id == id].refcount
            },
    {
        assert(forall|j: int| 0 <= j < i ==> self.view()[j] == pre[j]);
        assert(forall|j: int| i <= j < self.view().len() ==> self.view()[j] == pre[j + 1]);
        assert forall|p: int, q: int|
            0 <= p < self.view().len() && 0 <= q < self.view().len()
                && #[trigger] self.view()[p].mnt_id == #[trigger] self.view()[q].mnt_id
            implies p == q by {
            let p0 = if p < i { p } else { p + 1 };
            let q0 = if q < i { q } else { q + 1 };
            assert(pre[p0].mnt_id == self.view()[p].mnt_id);
            assert(pre[q0].mnt_id == self.view()[q].mnt_id);
        }
        assert forall|id: u64| self.contains_mount(id) implies id != removed_id by {
            let m = self.mount_idx(id);
            assert(0 <= m < self.view().len() && self.view()[m].mnt_id == id);
            let m0 = if m < i { m } else { m + 1 };
            assert(pre[m0].mnt_id == id);
            if id == removed_id {
                assert(pre[i].mnt_id == id);
                assert(m0 == i);
                assert(false);
            }
        }
        assert forall|id: u64| id != removed_id
            && (exists|k: int| 0 <= k < pre.len() && #[trigger] pre[k].mnt_id == id)
            implies self.contains_mount(id) by {
            let k = choose|k: int| 0 <= k < pre.len() && pre[k].mnt_id == id;
            if k < i {
                assert(self.view()[k].mnt_id == id);
            } else {
                assert(k != i);
                assert(self.view()[k - 1].mnt_id == id);
            }
        }
        assert forall|id: u64| id != removed_id && self.contains_mount(id) implies {
            &&& self.anchor(id)
                == pre[choose|k: int| 0 <= k < pre.len() && pre[k].mnt_id == id].fd
            &&& self.count(id)
                == pre[choose|k: int| 0 <= k < pre.len() && pre[k].mnt_id == id].refcount
        } by {
            let m = self.mount_idx(id);
            assert(0 <= m < self.view().len() && self.view()[m].mnt_id == id);
            let k = choose|k: int| 0 <= k < pre.len() && pre[k].mnt_id == id;
            if m < i {
                assert(pre[m].mnt_id == id);
                assert(k == m);
            } else {
                assert(pre[m + 1].mnt_id == id);
                assert(k == m + 1);
            }
        }
    }
}

} // verus!
