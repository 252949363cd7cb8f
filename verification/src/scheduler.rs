//! The coordinator of a crawl: the set of visited URLs and the count of
//! pending work items, advanced by one event at a time.
//!
//! The coordinator alone owns this state. Workers fetch, save and enqueue, and
//! report back what they did; the coordinator folds each report into the count
//! and stops when the count reaches zero or a worker reports a fatal error.

use vstd::prelude::*;
use crate::error::NovelError;
use vstd::hash_set::StringHashSet;
use crate::item::WorkItem;
use crate::item::WorkItemView;

verus! {

/// What a worker tells the coordinator when it is done with its item.
#[derive(Debug, Clone, PartialEq, Eq)]
pub enum WorkerReport {
    /// The page was saved and has no continuation.
    Saved,
    /// The page was saved and its continuation was enqueued.
    SavedAndRequeued,
    /// The fetch timed out and the same item was enqueued again.
    Requeued,
    /// The fetch, the extraction or the save failed for good.
    Fatal(NovelError),
}

/// By how much a report changes the count of pending items.
pub open spec fn delta_of(report: WorkerReport) -> int {
    match report {
        WorkerReport::Saved => -1,
        _ => 0,
    }
}

/// An item in the queue: one that enters it for the first time, or one that
/// a timeout sent back to be fetched again.
#[derive(Debug, Clone, PartialEq, Eq)]
pub enum Queued {
    /// A leaf of the first batch, or a continuation.
    Fresh(WorkItem),
    /// An item whose fetch timed out.
    Retry(WorkItem),
}

/// A queued item as contracts see it.
pub struct QueuedView {
    pub item: WorkItemView,
    pub retry: bool,
}

impl View for Queued {
    type V = QueuedView;

    open spec fn view(&self) -> QueuedView {
        match *self {
            Queued::Fresh(item) => QueuedView { item: item@, retry: false },
            Queued::Retry(item) => QueuedView { item: item@, retry: true },
        }
    }
}

impl Queued {
    /// The item, whatever brought it into the queue.
    pub open spec fn item(&self) -> WorkItem {
        match *self {
            Queued::Fresh(item) => item,
            Queued::Retry(item) => item,
        }
    }
}

/// What the coordinator does with an item that it takes from the queue.
#[derive(Debug, Clone, PartialEq, Eq)]
pub enum Dispatch {
    /// The item's URL was dispatched before: the item is dropped.
    Duplicate,
    /// A worker is to fetch the item.
    Run(WorkItem),
}

/// The coordinator's state as contracts see it.
pub struct SchedulerView {
    pub visited: Set<Seq<char>>,
    pub pending: int,
}

/// The state in which a crawl of `initial` items starts.
pub open spec fn start_state(initial: int) -> SchedulerView {
    SchedulerView { visited: Set::empty(), pending: initial }
}

/// The state after an item with the given URL was taken from the queue for
/// the first time.
pub open spec fn after_item(s: SchedulerView, url: Seq<char>) -> SchedulerView {
    if s.visited.contains(url) {
        SchedulerView { visited: s.visited, pending: s.pending - 1 }
    } else {
        SchedulerView { visited: s.visited.insert(url), pending: s.pending }
    }
}

/// The state after a queued item was taken: an item that is fetched again
/// changes nothing, for it was counted and recorded when it was first taken.
pub open spec fn after_queued(s: SchedulerView, queued: QueuedView) -> SchedulerView {
    if queued.retry {
        s
    } else {
        after_item(s, queued.item.url)
    }
}

/// Whether a queued item is dropped: it enters for the first time and its
/// URL was dispatched before.
pub open spec fn is_dropped(s: SchedulerView, queued: QueuedView) -> bool {
    !queued.retry && s.visited.contains(queued.item.url)
}

/// The state after a worker's report was folded in.
pub open spec fn after_report(s: SchedulerView, report: WorkerReport) -> SchedulerView {
    SchedulerView { visited: s.visited, pending: s.pending + delta_of(report) }
}

/// The coordinator's state.
pub struct Scheduler {
    visited: StringHashSet,
    pending: i32,
}

impl View for Scheduler {
    type V = SchedulerView;

    closed spec fn view(&self) -> SchedulerView {
        SchedulerView { visited: self.visited@, pending: self.pending as int }
    }
}

impl Scheduler {
    /// The state is sound: the count is not negative.
    pub closed spec fn wf(&self) -> bool {
        self.pending >= 0
    }

    /// A coordinator for a crawl that starts with `initial` items in its queue.
    pub fn new(initial: i32) -> (out: Scheduler)
        requires
            initial >= 0,
        ensures
            out.wf(),
            out@ == start_state(initial as int),
    {
        Scheduler { visited: StringHashSet::new(), pending: initial }
    }

    /// The number of items that are enqueued or in flight.
    pub fn pending(&self) -> (out: i32)
        requires
            self.wf(),
        ensures
            out == self@.pending,
            out >= 0,
    {
        self.pending
    }

    /// Whether the crawl goes on: some item is still pending.
    pub fn is_running(&self) -> (out: bool)
        requires
            self.wf(),
        ensures
            out == (self@.pending > 0),
    {
        self.pending > 0
    }

    /// Whether the URL was dispatched before.
    pub fn has_visited(&self, url: &String) -> (out: bool)
        ensures
            out == self@.visited.contains(url@),
    {
        self.visited.contains(url.as_str())
    }

    /// The number of URLs dispatched so far.
    pub fn visited_count(&self) -> (out: usize)
        ensures
            out == self@.visited.len(),
    {
        self.visited.len()
    }

    /// Takes an item from the queue. An item that a timeout sent back is
    /// handed out to be fetched again, and nothing changes. An item that
    /// enters for the first time is dropped, and leaves the count one lower,
    /// if its URL was dispatched before; else its URL is recorded as visited
    /// and the item is handed out for a worker.
    pub fn on_item(&mut self, queued: Queued) -> (out: Dispatch)
        requires
            old(self).wf(),
            old(self)@.pending > 0,
        ensures
            final(self).wf(),
            final(self)@ == after_queued(old(self)@, queued@),
            out == (if is_dropped(old(self)@, queued@) {
                Dispatch::Duplicate
            } else {
                Dispatch::Run(queued.item())
            }),
    {
        match queued {
            Queued::Retry(item) => Dispatch::Run(item),
            Queued::Fresh(item) => {
                if self.visited.contains(item.url.as_str()) {
                    self.pending = self.pending - 1;
                    Dispatch::Duplicate
                } else {
                    let url = item.url.clone();
                    self.visited.insert(url);
                    Dispatch::Run(item)
                }
            },
        }
    }

    /// Folds a worker's report into the count. A fatal report changes nothing
    /// and comes back as the crawl's error.
    pub fn on_finished(&mut self, report: WorkerReport) -> (out: Result<(), NovelError>)
        requires
            old(self).wf(),
            old(self)@.pending > 0,
        ensures
            final(self).wf(),
            match report {
                WorkerReport::Fatal(e) => out == Err::<(), NovelError>(e) && final(self)@ == old(
                    self,
                )@,
                _ => out is Ok && final(self)@ == after_report(old(self)@, report),
            },
    {
        match report {
            WorkerReport::Saved => {
                self.pending = self.pending - 1;
                Ok(())
            },
            WorkerReport::SavedAndRequeued => Ok(()),
            WorkerReport::Requeued => Ok(()),
            WorkerReport::Fatal(e) => Err(e),
        }
    }
}

} // verus!
