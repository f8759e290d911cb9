//! A guarded cell: one integer value behind a mutual-exclusion lock.
//!
//! The lock moves through the states `Free -> Held -> Free` on the normal
//! path, or `Free -> Held -> Poisoned` when a holder aborts while inside its
//! critical section. `Poisoned` is absorbing: once entered, every later
//! acquisition attempt fails and the state never changes again.

use vstd::prelude::*;

verus! {

/// The state of the mutual-exclusion lock that guards the cell.
#[derive(Clone, Copy, Debug)]
pub enum LockState {
    /// Nobody holds the lock; an acquisition attempt succeeds.
    Free,
    /// Exactly one holder has exclusive access to the value.
    Held,
    /// A holder aborted while holding the lock; the value is suspect and
    /// every later acquisition attempt is refused.
    Poisoned,
}

/// What a single acquisition attempt reports.
#[derive(Clone, Copy, Debug, PartialEq, Eq)]
pub enum AcquireStatus {
    /// The lock was free and is now held by the caller.
    Acquired,
    /// Another holder is inside its critical section; the caller must wait.
    WouldBlock,
    /// A previous holder aborted while holding the lock.
    Poisoned,
}

/// Everything observable about a guarded cell: the lock state and the value.
pub struct CellModel {
    pub lock: LockState,
    pub value: i64,
}

/// The lock's transition relation: the only moves an operation on the cell
/// may make. The normal path is `Free -> Held -> Free`; a holder that
/// aborts takes `Held -> Poisoned`; and an operation that does not change
/// hands (a refused or blocked attempt, a read or a write) leaves the state
/// where it was. Every method of `GuardedCell` promises to move along this
/// relation.
pub open spec fn lock_step(pre: LockState, post: LockState) -> bool {
    ||| post == pre
    ||| (pre is Free && post is Held)
    ||| (pre is Held && post is Free)
    ||| (pre is Held && post is Poisoned)
}

/// `Poisoned` is an absorbing state of the transition relation: no
/// operation, of any kind, moves the lock out of it.
pub proof fn lemma_poisoned_has_no_exit(pre: LockState, post: LockState)
    requires
        pre is Poisoned,
        lock_step(pre, post),
    ensures
        post is Poisoned,
{
}

/// What one acquisition attempt returns, as a function of the lock state.
pub open spec fn acquire_result(s: LockState) -> AcquireStatus {
    match s {
        LockState::Free => AcquireStatus::Acquired,
        LockState::Held => AcquireStatus::WouldBlock,
        LockState::Poisoned => AcquireStatus::Poisoned,
    }
}

/// The lock state after one acquisition attempt: only a free lock changes
/// hands; a held or poisoned lock is left exactly as it was.
pub open spec fn acquire_next(s: LockState) -> LockState {
    match s {
        LockState::Free => LockState::Held,
        _ => s,
    }
}

/// Mutual exclusion: while one holder's critical section is open, no other
/// acquisition attempt succeeds, and the attempt leaves the lock untouched.
/// Hold intervals therefore never overlap: a new one can begin only after
/// the lock has returned to `Free`.
pub proof fn lemma_acquire_mutual_exclusion(s: LockState)
    requires
        s is Held,
    ensures
        acquire_result(s) !is Acquired,
        acquire_next(s) == s,
{
}

/// A poisoned lock is absorbing: every later acquisition attempt reports
/// `Poisoned` and never grants access, and the lock stays poisoned.
pub proof fn lemma_poisoned_is_absorbing(s: LockState)
    requires
        s is Poisoned,
    ensures
        acquire_result(s) is Poisoned,
        acquire_result(s) !is Acquired,
        acquire_next(s) == s,
{
}

/// A single integer cell together with the lock that serializes all access
/// to it. The value can be read or written only while the lock is held.
pub struct GuardedCell {
    lock: LockState,
    value: i64,
}

impl View for GuardedCell {
    type V = CellModel;

    closed spec fn view(&self) -> CellModel {
        CellModel { lock: self.lock, value: self.value }
    }
}

impl GuardedCell {
    /// A fresh cell holding `v`, with the lock free.
    pub fn new(v: i64) -> (c: GuardedCell)
        ensures
            c@.lock is Free,
            c@.value == v,
    {
        GuardedCell { lock: LockState::Free, value: v }
    }

    /// One acquisition attempt. It succeeds exactly when the lock is free;
    /// while another holder is inside its critical section the caller is
    /// told to wait, and once the lock is poisoned every attempt fails.
    /// The value itself is never changed by an attempt.
    pub fn try_acquire(&mut self) -> (r: AcquireStatus)
        ensures
            r == acquire_result(old(self)@.lock),
            final(self)@.lock == acquire_next(old(self)@.lock),
            final(self)@.value == old(self)@.value,
            lock_step(old(self)@.lock, final(self)@.lock),
    {
        match self.lock {
            LockState::Free => {
                self.lock = LockState::Held;
                AcquireStatus::Acquired
            },
            LockState::Held => AcquireStatus::WouldBlock,
            LockState::Poisoned => AcquireStatus::Poisoned,
        }
    }

    /// Reads the guarded value; only a holder may do so.
    pub fn read(&self) -> (v: i64)
        requires
            self@.lock is Held,
        ensures
            v == self@.value,
    {
        self.value
    }

    /// Overwrites the guarded value; only a holder may do so.
    pub fn write(&mut self, v: i64)
        requires
            old(self)@.lock is Held,
        ensures
            final(self)@.lock is Held,
            final(self)@.value == v,
            lock_step(old(self)@.lock, final(self)@.lock),
    {
        self.value = v;
    }

    /// The holder leaves its critical section normally: the lock returns to
    /// `Free` and the value is kept.
    pub fn release(&mut self)
        requires
            old(self)@.lock is Held,
        ensures
            final(self)@.lock is Free,
            final(self)@.value == old(self)@.value,
            lock_step(old(self)@.lock, final(self)@.lock),
    {
        self.lock = LockState::Free;
    }

    /// The holder aborts while inside its critical section: the lock is
    /// poisoned, so the possibly inconsistent value is never handed out
    /// again. The value itself is kept for inspection by this model.
    pub fn poison(&mut self)
        requires
            old(self)@.lock is Held,
        ensures
            final(self)@.lock is Poisoned,
            final(self)@.value == old(self)@.value,
            lock_step(old(self)@.lock, final(self)@.lock),
    {
        self.lock = LockState::Poisoned;
    }
}

} // verus!
