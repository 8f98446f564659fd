//! Bookkeeping for spawned workers and for joining them.
//!
//! `JoinCoordinator` is the shared record behind a set of workers: a worker is
//! registered when it is spawned, reports its outcome once when it finishes,
//! and that outcome is handed to whoever joins it, exactly once.  Whoever runs
//! it across threads keeps it under a lock and lets a joiner that was told
//! `Pending` wait and retry.
use vstd::prelude::*;

verus! {

/// How a worker ended.
#[derive(Debug)]
pub enum Outcome<T> {
    /// The task ran to its end and produced a value.
    Completed(T),
    /// The task ended abnormally, for the reason given.
    Failed(String),
}

impl<T> Outcome<T> {
    /// Whether the task produced a value.
    pub fn is_completed(&self) -> (r: bool)
        ensures
            r == self is Completed,
    {
        match self {
            Outcome::Completed(_) => true,
            Outcome::Failed(_) => false,
        }
    }
}

/// Where one worker stands.
pub enum WorkerSlot<T> {
    /// Spawned and not finished.
    Running,
    /// Finished, with its outcome not yet handed to a joiner.
    Finished(Outcome<T>),
    /// Its outcome has been handed to a joiner.
    Joined,
}

/// The answer to an attempt to join a worker.
#[derive(Debug)]
pub enum JoinStatus<T> {
    /// The worker's outcome, handed over now and never again.
    Ready(Outcome<T>),
    /// The worker has not finished; the joiner must wait and retry.
    Pending,
    /// The worker's outcome was already handed to an earlier join.
    AlreadyJoined,
    /// No worker has that id.
    Unknown,
}

/// What joining worker `id` answers when the workers stand as in `s`, and
/// how they stand afterwards.
pub open spec fn join_step<T>(s: Seq<WorkerSlot<T>>, id: usize) -> (JoinStatus<T>, Seq<WorkerSlot<T>>) {
    if id >= s.len() {
        (JoinStatus::Unknown, s)
    } else {
        match s[id as int] {
            WorkerSlot::Running => (JoinStatus::Pending, s),
            WorkerSlot::Finished(o) => (JoinStatus::Ready(o), s.update(id as int, WorkerSlot::Joined)),
            WorkerSlot::Joined => (JoinStatus::AlreadyJoined, s),
        }
    }
}

pub struct JoinCoordinator<T> {
    slots: Vec<WorkerSlot<T>>,
}

impl<T> View for JoinCoordinator<T> {
    type V = Seq<WorkerSlot<T>>;

    closed spec fn view(&self) -> Seq<WorkerSlot<T>> {
        self.slots@
    }
}

impl<T> JoinCoordinator<T> {
    /// A coordinator with no workers.
    pub fn new() -> (r: JoinCoordinator<T>)
        ensures
            r@ == Seq::<WorkerSlot<T>>::empty(),
    {
        JoinCoordinator { slots: Vec::new() }
    }

    /// Registers a newly spawned worker and returns its id.
    pub fn spawn(&mut self) -> (id: usize)
        ensures
            id == old(self)@.len(),
            final(self)@ == old(self)@.push(WorkerSlot::Running),
    {
        let id = self.slots.len();
        self.slots.push(WorkerSlot::Running);
        id
    }

    /// The running worker `id` reports how it ended.
    pub fn finish(&mut self, id: usize, outcome: Outcome<T>)
        requires
            id < old(self)@.len(),
            old(self)@[id as int] is Running,
        ensures
            final(self)@ == old(self)@.update(id as int, WorkerSlot::Finished(outcome)),
    {
        self.slots.set(id, WorkerSlot::Finished(outcome));
    }

    /// Whether worker `id` exists and is still running.
    pub fn is_running(&self, id: usize) -> (r: bool)
        ensures
            r == (id < self@.len() && self@[id as int] is Running),
    {
        id < self.slots.len() && match self.slots[id] {
            WorkerSlot::Running => true,
            _ => false,
        }
    }

    /// Tries to join worker `id`, as `join_step` describes.
    pub fn join(&mut self, id: usize) -> (r: JoinStatus<T>)
        ensures
            (r, final(self)@) == join_step(old(self)@, id),
    {
        if id >= self.slots.len() {
            return JoinStatus::Unknown;
        }
        match self.slots[id] {
            WorkerSlot::Running => return JoinStatus::Pending,
            WorkerSlot::Joined => return JoinStatus::AlreadyJoined,
            WorkerSlot::Finished(_) => {},
        }
        let slot = self.slots.remove(id);
        self.slots.insert(id, WorkerSlot::Joined);
        proof {
            assert(self.slots@ =~= old(self)@.update(id as int, WorkerSlot::Joined));
        }
        match slot {
            WorkerSlot::Finished(o) => JoinStatus::Ready(o),
            // The slot was seen to be finished just above.
            _ => JoinStatus::Pending,
        }
    }

    /// Whether every registered worker has been joined.
    pub fn all_joined(&self) -> (r: bool)
        ensures
            r == forall|i: int| 0 <= i < self@.len() ==> #[trigger] self@[i] is Joined,
    {
        let mut i: usize = 0;
        while i < self.slots.len()
            invariant
                0 <= i <= self@.len(),
                forall|j: int| 0 <= j < i ==> #[trigger] self@[j] is Joined,
            decreases self@.len() - i,
        {
            match self.slots[i] {
                WorkerSlot::Joined => {},
                _ => {
                    return false;
                },
            }
            i = i + 1;
        }
        true
    }
}

/// A worker that failed is reported as failed, with its reason, to the
/// first join and to no later one: the joiner never sees a completed outcome
/// for it, and a second join learns only that it was already joined.
pub proof fn lemma_failure_reported_once<T>(s: Seq<WorkerSlot<T>>, id: usize, reason: String)
    requires
        id < s.len(),
        s[id as int] is Running,
    ensures
        ({
            let first = join_step(s.update(id as int, WorkerSlot::Finished(Outcome::Failed(reason))), id);
            &&& first.0 == JoinStatus::Ready(Outcome::<T>::Failed(reason))
            &&& !(first.0 matches JoinStatus::Ready(Outcome::Completed(_)))
            &&& join_step(first.1, id).0 is AlreadyJoined
        }),
{
}

} // verus!
