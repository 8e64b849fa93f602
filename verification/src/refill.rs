//! Filling a queue's free places and pausing its items: which downloads
//! qualify, what happens to each, and how the free places are counted.
//! The daemon performs the store and aria2 calls between the steps.
use vstd::prelude::*;
use crate::download::Download;
use crate::enums::DownloadStatus;
use crate::queue::Queue;

verus! {

/// An item a refill may start: a pending one, or a paused one when the
/// scheduler paused it or the user started the whole queue.
pub open spec fn startable(d: Download, explicit: bool) -> bool {
    d.status is Pending || (d.status is Paused && (explicit || d.paused_by_scheduler))
}

/// An item a pause stops: every running one when the scheduler stops the
/// queue, otherwise the running ones the user did not start by hand.
pub open spec fn pausable(d: Download, by_scheduler: bool) -> bool {
    d.status is Active && (by_scheduler || !d.manually_started)
}

pub fn is_startable(d: &Download, explicit: bool) -> (r: bool)
    ensures
        r == startable(*d, explicit),
{
    match d.status {
        DownloadStatus::Pending => true,
        DownloadStatus::Paused => explicit || d.paused_by_scheduler,
        _ => false,
    }
}

pub fn is_pausable(d: &Download, by_scheduler: bool) -> (r: bool)
    ensures
        r == pausable(*d, by_scheduler),
{
    match d.status {
        DownloadStatus::Active => by_scheduler || !d.manually_started,
        _ => false,
    }
}

/// The paused items an explicit start marks as scheduler-paused, so that
/// later refills keep resuming them (all of them, beyond the free places).
pub open spec fn authorized_ids(items: Seq<Download>, explicit: bool) -> Seq<i64>
    decreases items.len(),
{
    if items.len() == 0 {
        Seq::empty()
    } else {
        let rest = authorized_ids(items.drop_last(), explicit);
        if explicit && items.last().status is Paused {
            rest.push(items.last().id)
        } else {
            rest
        }
    }
}

pub fn paused_items_to_authorize(items: &Vec<Download>, explicit: bool) -> (r: Vec<i64>)
    ensures
        r@ == authorized_ids(items@, explicit),
{
    let mut out: Vec<i64> = Vec::new();
    let mut i: usize = 0;
    while i < items.len()
        invariant
            i <= items@.len(),
            out@ == authorized_ids(items@.take(i as int), explicit),
        decreases items@.len() - i,
    {
        assert(items@.take(i + 1).drop_last() =~= items@.take(i as int));
        let paused = match items[i].status {
            DownloadStatus::Paused => true,
            _ => false,
        };
        if explicit && paused {
            out.push(items[i].id);
        }
        i = i + 1;
    }
    assert(items@.take(i as int) =~= items@);
    out
}

/// A run whose deadline has passed must not start anything more.
pub open spec fn deadline_passed(q: Queue, now: int) -> bool {
    q.scheduler.enabled && (q.scheduled_stop_at matches Some(stop) && now >= stop)
}

pub fn run_deadline_passed(q: &Queue, now: i128) -> (r: bool)
    ensures
        r == deadline_passed(*q, now as int),
{
    q.scheduler.enabled && match q.scheduled_stop_at {
        Some(stop) => now >= stop,
        None => false,
    }
}

/// What a refill does with its next candidate.
#[derive(Clone, Debug, PartialEq, Eq)]
pub enum RefillAction {
    /// No free place is left, or the run's deadline passed: stop.
    Stop,
    /// Unpause the item's aria2 entry.
    Unpause(String),
    /// Add the item to aria2 for the first time.
    StartFresh,
}

/// The free places of a refill: `initial` at the start, `capacity` left,
/// `started` so far.
#[derive(Clone, Copy, Debug)]
pub struct Refill {
    pub initial: u64,
    pub capacity: u64,
    pub started: u64,
}

/// Free places: the queue's limit less the items running, at least zero.
pub open spec fn free_places(max_concurrent: u32, active: i64) -> int {
    if max_concurrent - active > 0 {
        max_concurrent - active
    } else {
        0
    }
}

impl Refill {
    /// Every start used one of the initial places, and no more were used.
    pub open spec fn wf(self) -> bool {
        self.started + self.capacity == self.initial
    }

    pub fn new(max_concurrent: u32, active: i64) -> (r: Self)
        ensures
            r.wf(),
            r.initial == free_places(max_concurrent, active),
            r.capacity == r.initial,
            r.started == 0,
    {
        let free: u64 = if active < 0 {
            let extra: u64 = if active == i64::MIN {
                (i64::MAX as u64) + 1
            } else {
                (-active) as u64
            };
            max_concurrent as u64 + extra
        } else if (max_concurrent as i64) > active {
            (max_concurrent as i64 - active) as u64
        } else {
            0
        };
        Refill { initial: free, capacity: free, started: 0 }
    }

    /// The step for the next candidate.
    pub fn next_action(&self, candidate: &Download, deadline_passed: bool) -> (r: RefillAction)
        ensures
            (self.capacity == 0 || deadline_passed) ==> r == RefillAction::Stop,
            !(self.capacity == 0 || deadline_passed) ==> match candidate.aria2_gid {
                Some(g) => r == RefillAction::Unpause(g),
                None => r == RefillAction::StartFresh,
            },
    {
        if self.capacity == 0 || deadline_passed {
            return RefillAction::Stop;
        }
        match &candidate.aria2_gid {
            Some(g) => RefillAction::Unpause(g.clone()),
            None => RefillAction::StartFresh,
        }
    }

    /// Counts a candidate's outcome: a start uses a place; a failure (the
    /// item is then marked failed) uses none.
    pub fn record(&mut self, succeeded: bool)
        requires
            old(self).wf(),
            old(self).capacity > 0,
        ensures
            final(self).wf(),
            final(self).initial == old(self).initial,
            succeeded ==> final(self).capacity == old(self).capacity - 1 && final(self).started == old(self).started
                + 1,
            !succeeded ==> *final(self) == *old(self),
    {
        if succeeded {
            self.capacity = self.capacity - 1;
            self.started = self.started + 1;
        }
    }
}

/// A refill never starts more items than it had free places, and a failed
/// candidate leaves the places as they were.
pub proof fn law_refill_stays_within_free_places(r: Refill, succeeded: bool)
    requires
        r.wf(),
        r.capacity > 0,
    ensures
        r.started < r.initial,
        succeeded ==> r.started + 1 <= r.initial,
{
}

/// How one item is paused: the stop intent is stored before aria2 is asked
/// when the scheduler stops the queue; then the entry is paused (if it has
/// one); after that the item is paused, scheduler-paused when the scheduler
/// did it or the queue is scheduled, and no longer manually started when
/// the scheduler did it.
#[derive(Clone, Debug, PartialEq, Eq)]
pub struct PausePlan {
    pub store_intent_first: bool,
    pub rpc_gid: Option<String>,
    pub paused_by_scheduler: bool,
    pub clear_manual_start: bool,
}

pub fn pause_plan(d: &Download, by_scheduler: bool, scheduler_enabled: bool) -> (r: PausePlan)
    ensures
        r.store_intent_first == by_scheduler,
        r.rpc_gid == d.aria2_gid,
        r.paused_by_scheduler == (by_scheduler || scheduler_enabled),
        r.clear_manual_start == by_scheduler,
{
    let rpc_gid = match &d.aria2_gid {
        Some(g) => Some(g.clone()),
        None => None,
    };
    PausePlan {
        store_intent_first: by_scheduler,
        rpc_gid,
        paused_by_scheduler: by_scheduler || scheduler_enabled,
        clear_manual_start: by_scheduler,
    }
}

} // verus!
