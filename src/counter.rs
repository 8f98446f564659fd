//! A shared counter that only the single holder of its lock may read or
//! change.
//!
//! `SharedCounter` is the state behind a lock that many workers share: whoever
//! runs it across threads keeps it under a short-lived mutex and lets waiting
//! workers retry when the lock is released.  Workers are known by an id.
//!
//! Failure policy: a holder that fails inside its critical section releases
//! the lock with `failed` set.  From then on the counter is poisoned and every
//! later attempt to lock it reports `Poisoned` and grants nothing, so nobody
//! is ever handed a value that a failed holder may have left half-changed.
use vstd::prelude::*;

verus! {

/// The answer to an attempt to take the lock.
#[derive(Debug)]
pub enum LockAttempt {
    /// The caller now holds the lock.
    Granted,
    /// Another worker holds the lock; the caller must wait and retry.
    Busy,
    /// A holder failed while holding the lock; the counter is unusable.
    Poisoned,
}

/// Why an increment did not happen.
#[derive(Debug)]
pub enum CounterError {
    /// The counter is at its largest value.
    Overflow,
}

/// The abstract state of a shared counter.
pub struct CounterState {
    /// The current value.
    pub value: int,
    /// The value the counter was created with.
    pub initial: int,
    /// How many increments have been applied since creation.
    pub increments: nat,
    /// The worker that holds the lock, if any.
    pub holder: Option<u64>,
    /// Whether a holder failed while holding the lock.
    pub poisoned: bool,
}

/// What an attempt by `who` to take the lock answers, and the state after it:
/// granted exactly when the counter is neither poisoned nor held, and
/// otherwise nothing changes.
pub open spec fn lock_outcome(s: CounterState, who: u64) -> (LockAttempt, CounterState) {
    if s.poisoned {
        (LockAttempt::Poisoned, s)
    } else if s.holder is Some {
        (LockAttempt::Busy, s)
    } else {
        (LockAttempt::Granted, CounterState { holder: Some(who), ..s })
    }
}

pub struct SharedCounter {
    value: i64,
    holder: Option<u64>,
    poisoned: bool,
    initial: Ghost<int>,
    increments: Ghost<nat>,
}

impl View for SharedCounter {
    type V = CounterState;

    closed spec fn view(&self) -> CounterState {
        CounterState {
            value: self.value as int,
            initial: self.initial@,
            increments: self.increments@,
            holder: self.holder,
            poisoned: self.poisoned,
        }
    }
}

impl SharedCounter {
    /// No update is ever lost: the value is the initial value plus the
    /// number of increments applied.
    pub closed spec fn wf(&self) -> bool {
        self.value as int == self.initial@ + self.increments@
    }

    /// A counter holding `initial`, unlocked and not poisoned.
    pub fn new(initial: i64) -> (r: SharedCounter)
        ensures
            r.wf(),
            r@ == (CounterState {
                value: initial as int,
                initial: initial as int,
                increments: 0,
                holder: None,
                poisoned: false,
            }),
    {
        SharedCounter {
            value: initial,
            holder: None,
            poisoned: false,
            initial: Ghost(initial as int),
            increments: Ghost(0),
        }
    }

    /// Worker `who` tries to take the lock, as `lock_outcome` describes.
    pub fn try_lock(&mut self, who: u64) -> (r: LockAttempt)
        requires
            old(self).wf(),
        ensures
            final(self).wf(),
            (r, final(self)@) == lock_outcome(old(self)@, who),
    {
        if self.poisoned {
            LockAttempt::Poisoned
        } else if self.holder.is_some() {
            LockAttempt::Busy
        } else {
            self.holder = Some(who);
            LockAttempt::Granted
        }
    }

    /// The holder `who` reads the value.
    pub fn get(&self, who: u64) -> (r: i64)
        requires
            self@.holder == Some(who),
        ensures
            r as int == self@.value,
    {
        self.value
    }

    /// The holder `who` adds one to the value, unless it is already the
    /// largest `i64`, in which case nothing changes.
    pub fn increment(&mut self, who: u64) -> (r: Result<(), CounterError>)
        requires
            old(self).wf(),
            old(self)@.holder == Some(who),
        ensures
            final(self).wf(),
            old(self)@.value < i64::MAX ==> r is Ok && final(self)@ == (CounterState {
                value: old(self)@.value + 1,
                increments: old(self)@.increments + 1,
                ..old(self)@
            }),
            old(self)@.value == i64::MAX ==> r is Err && final(self)@ == old(self)@,
    {
        if self.value == i64::MAX {
            return Err(CounterError::Overflow);
        }
        self.value = self.value + 1;
        self.increments = Ghost(self.increments@ + 1);
        Ok(())
    }

    /// The holder `who` releases the lock; `failed` says that it failed
    /// inside its critical section, which poisons the counter for good.
    pub fn unlock(&mut self, who: u64, failed: bool)
        requires
            old(self).wf(),
            old(self)@.holder == Some(who),
        ensures
            final(self).wf(),
            final(self)@ == (CounterState {
                holder: None,
                poisoned: old(self)@.poisoned || failed,
                ..old(self)@
            }),
    {
        self.holder = None;
        self.poisoned = self.poisoned || failed;
    }

    /// How many workers hold the lock right now: never more than one.
    pub fn holders(&self) -> (r: usize)
        ensures
            r <= 1,
            r == 1 <==> self@.holder is Some,
    {
        if self.holder.is_some() {
            1
        } else {
            0
        }
    }

    /// Whether worker `who` holds the lock.
    pub fn is_held_by(&self, who: u64) -> (r: bool)
        ensures
            r == (self@.holder == Some(who)),
    {
        match self.holder {
            Some(h) => h == who,
            None => false,
        }
    }

    /// Whether a holder failed while holding the lock.
    pub fn is_poisoned(&self) -> (r: bool)
        ensures
            r == self@.poisoned,
    {
        self.poisoned
    }
}

/// However the workers' locked increments interleaved, none is lost: the
/// counter's value is its initial value plus the number of increments made.
pub proof fn lemma_no_lost_updates(c: &SharedCounter)
    requires
        c.wf(),
    ensures
        c@.value == c@.initial + c@.increments,
{
}

/// While one worker holds the lock, no other worker is granted it: any
/// attempt made then is refused, and the holder stays the same.
pub proof fn lemma_exclusive_holder(c: &SharedCounter, holder: u64, other: u64)
    requires
        c.wf(),
        c@.holder == Some(holder),
    ensures
        lock_outcome(c@, other).0 !is Granted,
        lock_outcome(c@, other).1 == c@,
{
}

} // verus!
