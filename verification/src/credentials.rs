//! Per-operation privilege switching: the ordered plan of direct,
//! thread-scoped credential syscalls for one client identity, guards that
//! stand for the duty to restore root, and scoped removal of one capability
//! from the effective set.
//!
//! The uid/gid syscalls themselves are performed by the unverified rim
//! around this crate; this module fixes their order and proves, over a model
//! of the kernel's per-thread credential rules, that the mandated
//! group-before-user order always goes through from root and that releasing
//! the guards always lands back on root identity.

use vstd::prelude::*;

use crate::oslib::{OsError, EINVAL};

verus! {

/// One direct, thread-scoped credential-changing syscall: set the effective
/// gid or the effective uid, leaving real and saved ids untouched.
#[derive(Clone, Copy, Debug, PartialEq, Eq, Structural)]
pub enum CredStep {
    SetEgid(u32),
    SetEuid(u32),
}

/// Evidence that the calling thread's effective uid was switched away from
/// root and must be switched back.
#[derive(Debug)]
pub struct ScopedUid;

/// Evidence that the calling thread's effective gid was switched away from
/// root and must be switched back.
#[derive(Debug)]
pub struct ScopedGid;

/// A model of the kernel state that decides whether a thread of this daemon
/// may change its effective ids: the current effective ids, and whether the
/// effective set still holds the id-changing capabilities.  Real and saved
/// ids stay root for the daemon's lifetime, so a change to id 0 is always
/// allowed, while a change to any other id needs the capability; moving the
/// effective uid off root clears the effective capabilities, and moving it
/// back restores them from the permitted set.
#[derive(Clone, Copy, Debug, PartialEq, Eq, Structural)]
pub struct ThreadCreds {
    pub euid: u32,
    pub egid: u32,
    pub cap_setid: bool,
}

impl ThreadCreds {
    /// The identity every operation starts from and returns to.
    pub open spec fn root() -> ThreadCreds {
        ThreadCreds { euid: 0, egid: 0, cap_setid: true }
    }

    /// Whether the kernel would let a thread in this state take the step.
    pub open spec fn step_allowed(self, s: CredStep) -> bool {
        match s {
            CredStep::SetEgid(g) => self.cap_setid || g == 0,
            CredStep::SetEuid(u) => self.cap_setid || u == 0,
        }
    }

    /// The state after the step.
    pub open spec fn apply_step(self, s: CredStep) -> ThreadCreds {
        match s {
            CredStep::SetEgid(g) => ThreadCreds { euid: self.euid, egid: g, cap_setid: self.cap_setid },
            CredStep::SetEuid(u) => ThreadCreds { euid: u, egid: self.egid, cap_setid: u == 0 },
        }
    }

    /// Whether every step of the sequence is allowed when taken in order.
    pub open spec fn runs(self, steps: Seq<CredStep>) -> bool
        decreases steps.len(),
    {
        steps.len() == 0 || {
            &&& self.step_allowed(steps[0])
            &&& self.apply_step(steps[0]).runs(steps.subrange(1, steps.len() as int))
        }
    }

    /// The state after taking the whole sequence in order.
    pub open spec fn apply_steps(self, steps: Seq<CredStep>) -> ThreadCreds
        decreases steps.len(),
    {
        if steps.len() == 0 {
            self
        } else {
            self.apply_step(steps[0]).apply_steps(steps.subrange(1, steps.len() as int))
        }
    }
}

/// The syscall plan that switches one thread to the client identity: the
/// group change strictly before the user change, and no step at all for an
/// id that is already root.
pub open spec fn switch_steps(uid: u32, gid: u32) -> Seq<CredStep> {
    (if gid != 0 { seq![CredStep::SetEgid(gid)] } else { Seq::empty() })
        + (if uid != 0 { seq![CredStep::SetEuid(uid)] } else { Seq::empty() })
}

/// The syscall plan that restores root for the guards held: each switched
/// id goes back to 0.  Restoration order is free; the user change comes
/// first here.
pub open spec fn unswitch_steps(had_uid: bool, had_gid: bool) -> Seq<CredStep> {
    (if had_uid { seq![CredStep::SetEuid(0)] } else { Seq::empty() })
        + (if had_gid { seq![CredStep::SetEgid(0)] } else { Seq::empty() })
}

/// Plans the switch of the calling thread's effective identity to the
/// client-declared pair: the group is changed before the user — changing
/// the user first would drop the capability needed to change the group —
/// and switching to id 0 is a no-op that produces no guard.  The caller
/// performs the returned steps in order and, once they succeeded, re-adds
/// the discretionary-access-override capability to the effective set.
pub fn set_creds(uid: u32, gid: u32) -> (r: (Vec<CredStep>, Option<ScopedUid>, Option<ScopedGid>))
    ensures
        r.0@ == switch_steps(uid, gid),
        r.1 is Some <==> uid != 0,
        r.2 is Some <==> gid != 0,
{
    let mut steps: Vec<CredStep> = Vec::new();
    let gid_guard = if gid != 0 {
        steps.push(CredStep::SetEgid(gid));
        Some(ScopedGid)
    } else {
        None
    };
    let uid_guard = if uid != 0 {
        steps.push(CredStep::SetEuid(uid));
        Some(ScopedUid)
    } else {
        None
    };
    proof {
        assert(steps@ =~= switch_steps(uid, gid));
    }
    (steps, uid_guard, gid_guard)
}

/// Plans the restoration of root identity for the guards an operation
/// holds, consuming them: each switched id is set back to 0.
pub fn restore_creds(uid_guard: Option<ScopedUid>, gid_guard: Option<ScopedGid>) -> (r: Vec<
    CredStep,
>)
    ensures
        r@ == unswitch_steps(uid_guard is Some, gid_guard is Some),
{
    let mut steps: Vec<CredStep> = Vec::new();
    let had_uid = uid_guard.is_some();
    let had_gid = gid_guard.is_some();
    if had_uid {
        steps.push(CredStep::SetEuid(0));
    }
    if had_gid {
        steps.push(CredStep::SetEgid(0));
    }
    proof {
        assert(steps@ =~= unswitch_steps(uid_guard is Some, gid_guard is Some));
    }
    steps
}

/// An empty plan is always accepted and changes nothing.
proof fn lemma_steps_none(c: ThreadCreds)
    ensures
        c.runs(Seq::<CredStep>::empty()),
        c.apply_steps(Seq::<CredStep>::empty()) == c,
{
}

/// A one-step plan is accepted exactly when its step is, and lands on that
/// step's outcome.
proof fn lemma_steps_one(c: ThreadCreds, a: CredStep)
    ensures
        c.runs(seq![a]) == c.step_allowed(a),
        c.apply_steps(seq![a]) == c.apply_step(a),
{
    let s = seq![a];
    assert(s[0] == a);
    assert(s.subrange(1, 1) =~= Seq::<CredStep>::empty());
    lemma_steps_none(c.apply_step(a));
}

/// A two-step plan is accepted exactly when its steps are, in order, and
/// lands on the second step's outcome.
proof fn lemma_steps_two(c: ThreadCreds, a: CredStep, b: CredStep)
    ensures
        c.runs(seq![a, b]) == (c.step_allowed(a) && c.apply_step(a).step_allowed(b)),
        c.apply_steps(seq![a, b]) == c.apply_step(a).apply_step(b),
{
    let s = seq![a, b];
    assert(s[0] == a);
    assert(s.subrange(1, 2) =~= seq![b]);
    lemma_steps_one(c.apply_step(a), b);
}

/// Law: from root, the group-before-user switch plan is always accepted by
/// the kernel's rules and lands on the requested identity.
pub proof fn lemma_switch_runs_from_root(uid: u32, gid: u32)
    ensures
        ThreadCreds::root().runs(switch_steps(uid, gid)),
        ThreadCreds::root().apply_steps(switch_steps(uid, gid)).euid == uid,
        ThreadCreds::root().apply_steps(switch_steps(uid, gid)).egid == gid,
        ThreadCreds::root().apply_steps(switch_steps(uid, gid)).cap_setid == (uid == 0),
{
    let s = switch_steps(uid, gid);
    let c = ThreadCreds::root();
    if gid != 0 {
        if uid != 0 {
            assert(s =~= seq![CredStep::SetEgid(gid), CredStep::SetEuid(uid)]);
            lemma_steps_two(c, CredStep::SetEgid(gid), CredStep::SetEuid(uid));
        } else {
            assert(s =~= seq![CredStep::SetEgid(gid)]);
            lemma_steps_one(c, CredStep::SetEgid(gid));
        }
    } else {
        if uid != 0 {
            assert(s =~= seq![CredStep::SetEuid(uid)]);
            lemma_steps_one(c, CredStep::SetEuid(uid));
        } else {
            assert(s =~= Seq::<CredStep>::empty());
            lemma_steps_none(c);
        }
    }
}

/// Law: switching the user before the group loses the ability to switch the
/// group — from root, the reversed plan is rejected at its group step.
pub proof fn lemma_uid_first_loses_gid(uid: u32, gid: u32)
    requires
        uid != 0,
        gid != 0,
    ensures
        !ThreadCreds::root().runs(seq![CredStep::SetEuid(uid), CredStep::SetEgid(gid)]),
{
    let c = ThreadCreds::root();
    lemma_steps_two(c, CredStep::SetEuid(uid), CredStep::SetEgid(gid));
    let after = c.apply_step(CredStep::SetEuid(uid));
    assert(!after.cap_setid);
    assert(!after.step_allowed(CredStep::SetEgid(gid)));
}

/// Law: releasing the guards restores effective root identity — after the
/// switch to any client pair, the restore plan for the guards produced is
/// always accepted and lands back on (0, 0) with the capabilities restored.
pub proof fn lemma_release_restores_root(uid: u32, gid: u32)
    ensures
        ThreadCreds::root().apply_steps(switch_steps(uid, gid)).runs(
            unswitch_steps(uid != 0, gid != 0),
        ),
        ThreadCreds::root().apply_steps(switch_steps(uid, gid)).apply_steps(
            unswitch_steps(uid != 0, gid != 0),
        ) == ThreadCreds::root(),
{
    lemma_switch_runs_from_root(uid, gid);
    let after = ThreadCreds::root().apply_steps(switch_steps(uid, gid));
    let r = unswitch_steps(uid != 0, gid != 0);
    if uid != 0 {
        if gid != 0 {
            assert(r =~= seq![CredStep::SetEuid(0), CredStep::SetEgid(0)]);
            lemma_steps_two(after, CredStep::SetEuid(0), CredStep::SetEgid(0));
        } else {
            assert(r =~= seq![CredStep::SetEuid(0)]);
            lemma_steps_one(after, CredStep::SetEuid(0));
        }
    } else {
        if gid != 0 {
            assert(r =~= seq![CredStep::SetEgid(0)]);
            lemma_steps_one(after, CredStep::SetEgid(0));
        } else {
            assert(r =~= Seq::<CredStep>::empty());
            lemma_steps_none(after);
        }
    }
}

/// A capability temporarily removed from the effective set, to be re-added
/// on release.  The capability syscalls themselves are performed by the
/// unverified rim; the guard records which capability the releaser owes.
#[derive(Debug)]
pub struct ScopedCaps {
    cap: u32,
}

impl ScopedCaps {
    /// The numeric id of the capability this guard re-adds.
    pub closed spec fn capability(&self) -> u32 {
        self.cap
    }

    /// The capability the releaser must drop now and re-add later.
    pub fn cap(&self) -> (r: u32)
        ensures
            r == self.capability(),
    {
        self.cap
    }

    /// Consumes the guard, yielding the capability to re-add to the
    /// effective set.  A failure to re-add it leaves the thread with an
    /// undetermined effective capability set, which is unsafe to continue
    /// from: the caller must treat that as fatal and abort the process.
    pub fn release(self) -> (r: u32)
        ensures
            r == self.capability(),
    {
        self.cap
    }
}

/// Decides one scoped capability removal from what the capability library
/// reported: an unknown name is an invalid-argument error; a capability
/// that is not currently in the effective set yields no guard — nothing to
/// do, nothing to restore; one that is present is to be dropped, and the
/// returned guard records it for re-adding on release.
pub fn drop_effective_cap(resolved: Option<u32>, in_effective: bool) -> (r: Result<
    Option<ScopedCaps>,
    OsError,
>)
    ensures
        resolved is None ==> r == Err::<Option<ScopedCaps>, OsError>(OsError { code: EINVAL }),
        resolved matches Some(c) ==> (if in_effective {
            r matches Ok(Some(s)) && s.capability() == c
        } else {
            r == Ok::<Option<ScopedCaps>, OsError>(None)
        }),
{
    match resolved {
        None => Err(OsError { code: EINVAL }),
        Some(cap) => {
            if in_effective {
                Ok(Some(ScopedCaps { cap }))
            } else {
                Ok(None)
            }
        },
    }
}

} // verus!
