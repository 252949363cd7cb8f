//! A crawl as a whole: the queue, the workers in flight and the coordinator's
//! state, advanced by the events that the coordinator reacts to, and what
//! holds of every state that a crawl can reach.
//!
//! The steps are built from the functions that specify the coordinator and
//! the workers, so what is proved here of a step is proved of those.

use vstd::prelude::*;
use crate::chapter::Chapter;
use crate::error::NovelError;
use crate::error::is_timeout_error;
use crate::item::WorkItem;
use crate::item::WorkItemView;
use crate::item::continuation_of;
use crate::scheduler::Queued;
use crate::scheduler::QueuedView;
use crate::scheduler::SchedulerView;
use crate::scheduler::WorkerReport;
use crate::scheduler::after_queued;
use crate::scheduler::after_report;
use crate::scheduler::is_dropped;
use crate::scheduler::start_state;
use crate::worker::WorkerStep;
use crate::worker::report_of_save;
use crate::worker::step_after_fetch;

verus! {

/// How the fetch of an item in flight ends.
pub enum Outcome {
    /// The page was read and saved; it may name a next page.
    Page { next_page: Option<Seq<char>> },
    /// The fetch timed out.
    Timeout,
    /// The fetch, the extraction or the save failed for good.
    Failed(NovelError),
}

/// What the worker reports for an outcome.
pub open spec fn report_for(outcome: Outcome) -> WorkerReport {
    match outcome {
        Outcome::Page { next_page } => if next_page is Some {
            WorkerReport::SavedAndRequeued
        } else {
            WorkerReport::Saved
        },
        Outcome::Timeout => WorkerReport::Requeued,
        Outcome::Failed(e) => WorkerReport::Fatal(e),
    }
}

/// How the work on an item ends, given what its fetch and, after a fetch
/// that went well, its save came to.
pub open spec fn outcome_of(
    fetched: Result<(Chapter, Option<String>), NovelError>,
    written: Result<(), NovelError>,
) -> Outcome {
    match fetched {
        Ok(page) => match written {
            Ok(_) => Outcome::Page {
                next_page: match page.1 {
                    Some(url) => Some(url@),
                    None => None,
                },
            },
            Err(e) => Outcome::Failed(e),
        },
        Err(e) => if is_timeout_error(e) {
            Outcome::Timeout
        } else {
            Outcome::Failed(e)
        },
    }
}

/// What a worker reports is the report for the way its work ended: after a
/// fetch that went well, the report of its save; after a timeout, that the
/// item was enqueued to be fetched again; after any other failure, that
/// failure.
pub proof fn lemma_worker_reports_outcome(
    item: WorkItem,
    fetched: Result<(Chapter, Option<String>), NovelError>,
    continuation: Option<WorkItem>,
    written: Result<(), NovelError>,
)
    requires
        fetched is Ok ==> (continuation is Some <==> fetched->Ok_0.1 is Some),
    ensures
        match step_after_fetch(item, fetched) {
            WorkerStep::Save { chapter, next_page } => report_of_save(continuation, written)
                == report_for(outcome_of(fetched, written)),
            WorkerStep::Retry(again) => again == Queued::Retry(item) && report_for(
                outcome_of(fetched, written),
            ) == WorkerReport::Requeued,
            WorkerStep::Abort(e) => report_for(outcome_of(fetched, written))
                == WorkerReport::Fatal(e),
        },
{
}

/// One thing that the coordinator reacts to.
pub enum CrawlEvent {
    /// The item at the head of the queue becomes available.
    Take,
    /// The worker at the given place among those in flight is done.
    Finish { worker: int, outcome: Outcome },
}

/// A crawl at one moment.
pub struct CrawlState {
    /// The coordinator's own state.
    pub sched: SchedulerView,
    /// The items enqueued and not yet taken, oldest first.
    pub queue: Seq<QueuedView>,
    /// The items handed to workers that have not reported yet.
    pub running: Seq<WorkItemView>,
    /// The URL of every item that was handed to a worker for the first time,
    /// in order.
    pub dispatched: Seq<Seq<char>>,
    /// The URL of every fetch, the first of an item and those after a
    /// timeout, in order.
    pub fetched: Seq<Seq<char>>,
    /// The order key of every chapter saved so far, in order.
    pub saved: Seq<Seq<char>>,
    /// How many items were ever created: the first batch and every continuation.
    pub enqueued: nat,
    /// How many items were saved and passed their place on to a continuation.
    pub continued: nat,
    /// How many items came to rest: saved without a continuation, or dropped
    /// as duplicates.
    pub resolved: nat,
    /// The fatal error that ended the crawl, if one did.
    pub failure: Option<NovelError>,
}

/// An item that enters the queue for the first time.
pub open spec fn fresh(item: WorkItemView) -> QueuedView {
    QueuedView { item, retry: false }
}

/// An item that goes back to the queue to be fetched again.
pub open spec fn again(item: WorkItemView) -> QueuedView {
    QueuedView { item, retry: true }
}

/// The crawl before its first event.
pub open spec fn start(initial: Seq<WorkItemView>) -> CrawlState {
    CrawlState {
        sched: start_state(initial.len() as int),
        queue: initial.map_values(|item: WorkItemView| fresh(item)),
        running: Seq::empty(),
        dispatched: Seq::empty(),
        fetched: Seq::empty(),
        saved: Seq::empty(),
        enqueued: initial.len(),
        continued: 0,
        resolved: 0,
        failure: None,
    }
}

/// The coordinator's loop has ended: nothing is pending, or a worker failed.
pub open spec fn halted(s: CrawlState) -> bool {
    s.failure is Some || s.sched.pending <= 0
}

/// The coordinator takes the head of the queue.
pub open spec fn take(s: CrawlState) -> CrawlState {
    if s.queue.len() == 0 {
        s
    } else {
        let head = s.queue[0];
        if is_dropped(s.sched, head) {
            CrawlState {
                sched: after_queued(s.sched, head),
                queue: s.queue.drop_first(),
                resolved: s.resolved + 1,
                ..s
            }
        } else {
            CrawlState {
                sched: after_queued(s.sched, head),
                queue: s.queue.drop_first(),
                running: s.running.push(head.item),
                dispatched: if head.retry {
                    s.dispatched
                } else {
                    s.dispatched.push(head.item.url)
                },
                fetched: s.fetched.push(head.item.url),
                ..s
            }
        }
    }
}

/// A worker in flight ends with the given outcome.
pub open spec fn finish(s: CrawlState, worker: int, outcome: Outcome) -> CrawlState {
    if !(0 <= worker < s.running.len()) {
        s
    } else {
        let item = s.running[worker];
        let running = s.running.remove(worker);
        match outcome {
            Outcome::Failed(e) => CrawlState { running, failure: Some(e), ..s },
            Outcome::Timeout => CrawlState {
                sched: after_report(s.sched, report_for(outcome)),
                queue: s.queue.push(again(item)),
                running,
                ..s
            },
            Outcome::Page { next_page: None } => CrawlState {
                sched: after_report(s.sched, report_for(outcome)),
                running,
                saved: s.saved.push(item.order_key),
                resolved: s.resolved + 1,
                ..s
            },
            Outcome::Page { next_page: Some(url) } => CrawlState {
                sched: after_report(s.sched, report_for(outcome)),
                queue: s.queue.push(fresh(continuation_of(item.order_key, url))),
                running,
                saved: s.saved.push(item.order_key),
                enqueued: s.enqueued + 1,
                continued: s.continued + 1,
                ..s
            },
        }
    }
}

/// One event. A crawl that has halted reacts to nothing.
pub open spec fn step(s: CrawlState, event: CrawlEvent) -> CrawlState {
    if halted(s) {
        s
    } else {
        match event {
            CrawlEvent::Take => take(s),
            CrawlEvent::Finish { worker, outcome } => finish(s, worker, outcome),
        }
    }
}

/// The events one after another.
pub open spec fn run(s: CrawlState, events: Seq<CrawlEvent>) -> CrawlState
    decreases events.len(),
{
    if events.len() == 0 {
        s
    } else {
        step(run(s, events.drop_last()), events.last())
    }
}

/// How many items of the queue wait to be fetched again.
pub open spec fn retries_in(queue: Seq<QueuedView>) -> nat
    decreases queue.len(),
{
    if queue.len() == 0 {
        0
    } else if queue[0].retry {
        1 + retries_in(queue.drop_first())
    } else {
        retries_in(queue.drop_first())
    }
}

/// An item appended to the queue counts among those that wait to be fetched
/// again exactly if it is marked so.
pub proof fn lemma_retries_in_push(queue: Seq<QueuedView>, queued: QueuedView)
    ensures
        retries_in(queue.push(queued)) == retries_in(queue) + (if queued.retry {
            1nat
        } else {
            0nat
        }),
    decreases queue.len(),
{
    let longer = queue.push(queued);
    if queue.len() == 0 {
        assert(longer.drop_first() =~= Seq::<QueuedView>::empty());
        assert(longer[0] == queued);
        assert(retries_in(longer.drop_first()) == 0);
        assert(retries_in(queue) == 0);
    } else {
        assert(longer.drop_first() =~= queue.drop_first().push(queued));
        assert(longer[0] == queue[0]);
        lemma_retries_in_push(queue.drop_first(), queued);
    }
}

/// The count of pending items is the number of items ever created, less
/// those that passed their place on to a continuation, less those that came
/// to rest; and it is never negative.
pub open spec fn accounted(s: CrawlState) -> bool {
    &&& s.sched.pending == s.enqueued - s.continued - s.resolved
    &&& s.sched.pending >= 0
}

/// No URL was handed to a worker for the first time twice, and the visited
/// set holds the URLs that were handed out and no others.
pub open spec fn deduplicated(s: CrawlState) -> bool {
    &&& s.dispatched.no_duplicates()
    &&& forall|u: Seq<char>| s.sched.visited.contains(u) <==> s.dispatched.contains(u)
}

/// While the crawl has not failed, the pending items are those in the queue
/// and those in flight.
pub open spec fn outstanding(s: CrawlState) -> bool {
    s.failure is None ==> s.sched.pending == s.queue.len() + s.running.len()
}

/// Every item that was handed to a worker for the first time is saved at
/// most once: what was saved, what is in flight and what waits to be fetched
/// again each stem from a first dispatch of their own.
pub open spec fn saves_bounded(s: CrawlState) -> bool {
    s.saved.len() + s.running.len() + retries_in(s.queue) <= s.dispatched.len()
}

/// The URL of every item in flight, and of every item that waits to be
/// fetched again, is in the visited set.
pub open spec fn in_flight_visited(s: CrawlState) -> bool {
    &&& forall|k: int|
        0 <= k < s.running.len() ==> s.sched.visited.contains(#[trigger] s.running[k].url)
    &&& forall|k: int|
        0 <= k < s.queue.len() && (#[trigger] s.queue[k]).retry ==> s.sched.visited.contains(
            s.queue[k].item.url,
        )
}

/// Every fetch was of a URL in the visited set, and there were at least as
/// many fetches as first dispatches.
pub open spec fn fetches_visited(s: CrawlState) -> bool {
    &&& forall|k: int|
        0 <= k < s.fetched.len() ==> s.sched.visited.contains(#[trigger] s.fetched[k])
    &&& s.dispatched.len() <= s.fetched.len()
}

/// What holds of every state of a crawl.
pub open spec fn crawl_inv(s: CrawlState) -> bool {
    &&& accounted(s)
    &&& deduplicated(s)
    &&& outstanding(s)
    &&& saves_bounded(s)
    &&& in_flight_visited(s)
    &&& fetches_visited(s)
}

/// In a queue of items that all enter for the first time none waits to be
/// fetched again.
pub proof fn lemma_no_retries_at_start(initial: Seq<WorkItemView>)
    ensures
        retries_in(initial.map_values(|item: WorkItemView| fresh(item))) == 0,
    decreases initial.len(),
{
    let queue = initial.map_values(|item: WorkItemView| fresh(item));
    if initial.len() > 0 {
        assert(queue.drop_first() =~= initial.drop_first().map_values(
            |item: WorkItemView| fresh(item),
        ));
        lemma_no_retries_at_start(initial.drop_first());
    }
}

/// A crawl starts in a sound state, whatever its first batch holds.
pub proof fn lemma_start_inv(initial: Seq<WorkItemView>)
    ensures
        crawl_inv(start(initial)),
        start(initial).sched.pending == initial.len(),
{
    lemma_no_retries_at_start(initial);
}

/// An event leaves a sound state sound.
pub proof fn lemma_step_inv(s: CrawlState, event: CrawlEvent)
    requires
        crawl_inv(s),
    ensures
        crawl_inv(step(s, event)),
{
    let t = step(s, event);
    if halted(s) {
    } else {
        match event {
            CrawlEvent::Take => {
                if s.queue.len() > 0 {
                    let head = s.queue[0];
                    assert forall|k: int| 0 <= k < t.queue.len() && (#[trigger] t.queue[k]).retry
                        implies t.sched.visited.contains(t.queue[k].item.url) by {
                        assert(t.queue[k] == s.queue[k + 1]);
                    }
                    if !is_dropped(s.sched, head) && !head.retry {
                        let url = head.item.url;
                        assert(t.dispatched == s.dispatched.push(url));
                        assert forall|i: int, j: int|
                            0 <= i < t.dispatched.len() && 0 <= j < t.dispatched.len() && i
                                != j implies t.dispatched[i] != t.dispatched[j] by {
                            if i < s.dispatched.len() && j < s.dispatched.len() {
                            } else if i < s.dispatched.len() {
                                assert(s.dispatched.contains(s.dispatched[i]));
                            } else {
                                assert(s.dispatched.contains(s.dispatched[j]));
                            }
                        }
                        assert forall|u: Seq<char>|
                            t.sched.visited.contains(u) <==> t.dispatched.contains(u) by {
                            assert(s.sched.visited.contains(u) <==> s.dispatched.contains(u));
                            assert(t.sched.visited == s.sched.visited.insert(url));
                            if t.dispatched.contains(u) {
                                let i = choose|i: int|
                                    0 <= i < t.dispatched.len() && t.dispatched[i] == u;
                                if i < s.dispatched.len() {
                                    assert(s.dispatched[i] == u);
                                    assert(s.dispatched.contains(u));
                                }
                            }
                            if t.sched.visited.contains(u) {
                                if u == url {
                                    assert(t.dispatched[s.dispatched.len() as int] == u);
                                } else {
                                    assert(s.dispatched.contains(u));
                                    let i = choose|i: int|
                                        0 <= i < s.dispatched.len() && s.dispatched[i] == u;
                                    assert(t.dispatched[i] == u);
                                }
                            }
                        }
                    }
                }
            },
            CrawlEvent::Finish { worker, outcome } => {
                if 0 <= worker < s.running.len() {
                    let item = s.running[worker];
                    match outcome {
                        Outcome::Timeout => {
                            lemma_retries_in_push(s.queue, again(item));
                        },
                        Outcome::Page { next_page: Some(url) } => {
                            lemma_retries_in_push(
                                s.queue,
                                fresh(continuation_of(item.order_key, url)),
                            );
                        },
                        _ => {},
                    }
                }
            },
        }
    }
}

/// Accounting: in every state that a crawl reaches from any first batch by
/// any events, the count of pending items equals the number of items created,
/// the first batch and the continuations, less the number saved, with or
/// without a continuation, or dropped as duplicates; it is never negative;
/// no URL has been handed to a worker for the first time twice; and no item
/// has been saved more often than it was first handed out.
pub proof fn lemma_run_inv(initial: Seq<WorkItemView>, events: Seq<CrawlEvent>)
    ensures
        crawl_inv(run(start(initial), events)),
    decreases events.len(),
{
    if events.len() == 0 {
        lemma_start_inv(initial);
    } else {
        lemma_run_inv(initial, events.drop_last());
        lemma_step_inv(run(start(initial), events.drop_last()), events.last());
    }
}

/// As long as no page has named a next page, the count of pending items is
/// the number of items created less the number saved or dropped. (A chapter
/// saved with a continuation is not at rest, yet its continuation is counted
/// as created: from then on the difference is larger than the count by the
/// number of such chapters.)
pub proof fn lemma_pending_without_continuations(
    initial: Seq<WorkItemView>,
    events: Seq<CrawlEvent>,
)
    requires
        run(start(initial), events).continued == 0,
    ensures
        run(start(initial), events).sched.pending == run(start(initial), events).enqueued - run(
            start(initial),
            events,
        ).resolved,
        run(start(initial), events).sched.pending >= 0,
{
    lemma_run_inv(initial, events);
}

/// Counted by chains, a continuation taking the place of its parent, the
/// count of pending items is the size of the first batch less the number of
/// items that came to rest.
pub proof fn lemma_pending_by_chains(initial: Seq<WorkItemView>, events: Seq<CrawlEvent>)
    ensures
        run(start(initial), events).sched.pending == initial.len() - run(
            start(initial),
            events,
        ).resolved,
    decreases events.len(),
{
    if events.len() > 0 {
        lemma_pending_by_chains(initial, events.drop_last());
    }
}

/// Dedup: however often a URL stands in the first batch or comes back as a
/// continuation, an item with that URL is handed to a worker for the first
/// time at most once; every later fetch of the URL is that item's, after a
/// timeout.
pub proof fn lemma_dispatched_at_most_once(
    initial: Seq<WorkItemView>,
    events: Seq<CrawlEvent>,
    i: int,
    j: int,
)
    requires
        0 <= i < run(start(initial), events).dispatched.len(),
        0 <= j < run(start(initial), events).dispatched.len(),
        i != j,
    ensures
        run(start(initial), events).dispatched[i] != run(start(initial), events).dispatched[j],
{
    lemma_run_inv(initial, events);
}

/// Completion: a crawl that has not failed has a count of exactly zero when,
/// and only when, its queue is empty and no worker is in flight.
pub proof fn lemma_zero_iff_drained(initial: Seq<WorkItemView>, events: Seq<CrawlEvent>)
    requires
        run(start(initial), events).failure is None,
    ensures
        run(start(initial), events).sched.pending == 0 <==> (run(
            start(initial),
            events,
        ).queue.len() == 0 && run(start(initial), events).running.len() == 0),
{
    lemma_run_inv(initial, events);
}

/// A duplicate at the head of the queue is dropped: nothing is fetched for
/// it, and the count falls by one.
pub proof fn lemma_duplicate_is_dropped(s: CrawlState)
    requires
        !halted(s),
        s.queue.len() > 0,
        !s.queue[0].retry,
        s.sched.visited.contains(s.queue[0].item.url),
    ensures
        step(s, CrawlEvent::Take).dispatched == s.dispatched,
        step(s, CrawlEvent::Take).fetched == s.fetched,
        step(s, CrawlEvent::Take).running == s.running,
        step(s, CrawlEvent::Take).saved == s.saved,
        step(s, CrawlEvent::Take).sched.pending == s.sched.pending - 1,
        step(s, CrawlEvent::Take).sched.visited == s.sched.visited,
{
}

/// A timeout is not fatal and leaves the count as it was: the item goes back
/// to the end of the queue unchanged, marked as one to fetch again, and
/// nothing is saved for it.
pub proof fn lemma_timeout_requeues(s: CrawlState, worker: int)
    requires
        !halted(s),
        0 <= worker < s.running.len(),
    ensures
        ({
            let t = step(s, CrawlEvent::Finish { worker, outcome: Outcome::Timeout });
            &&& t.failure == s.failure
            &&& t.sched == s.sched
            &&& t.queue == s.queue.push(again(s.running[worker]))
            &&& t.running == s.running.remove(worker)
            &&& t.saved == s.saved
            &&& t.dispatched == s.dispatched
            &&& t.fetched == s.fetched
        }),
{
}

/// An item that waits to be fetched again is fetched again when it is
/// taken, though its URL is in the visited set: it goes to a worker, and
/// neither the count nor the visited set changes.
pub proof fn lemma_retry_is_fetched_again(s: CrawlState)
    requires
        !halted(s),
        s.queue.len() > 0,
        s.queue[0].retry,
    ensures
        ({
            let t = step(s, CrawlEvent::Take);
            &&& t.running == s.running.push(s.queue[0].item)
            &&& t.fetched == s.fetched.push(s.queue[0].item.url)
            &&& t.queue == s.queue.drop_first()
            &&& t.sched == s.sched
            &&& t.dispatched == s.dispatched
            &&& t.saved == s.saved
            &&& t.failure == s.failure
        }),
{
}

/// The state in which a worker's item first times out, is taken again and
/// then ends with the given outcome.
pub open spec fn after_one_timeout(s: CrawlState, worker: int, outcome: Outcome) -> CrawlState {
    let timed_out = step(s, CrawlEvent::Finish { worker, outcome: Outcome::Timeout });
    let retaken = step(timed_out, CrawlEvent::Take);
    step(retaken, CrawlEvent::Finish { worker: retaken.running.len() - 1, outcome })
}

/// Retry: with nothing else in the queue, an item whose fetch times out once
/// and then ends as it would have ended at once leaves the crawl where it
/// would have been without the timeout: the same count, the same chapters
/// saved, each once, the same queue, the same items in flight. Only the
/// number of fetches is one higher, the second being of the same URL.
pub proof fn lemma_retry_saves_once(s: CrawlState, worker: int, outcome: Outcome)
    requires
        !halted(s),
        s.queue.len() == 0,
        0 <= worker < s.running.len(),
    ensures
        ({
            let direct = step(s, CrawlEvent::Finish { worker, outcome });
            let retried = after_one_timeout(s, worker, outcome);
            &&& retried.sched == direct.sched
            &&& retried.saved == direct.saved
            &&& retried.queue == direct.queue
            &&& retried.running == direct.running
            &&& retried.dispatched == direct.dispatched
            &&& retried.enqueued == direct.enqueued
            &&& retried.continued == direct.continued
            &&& retried.resolved == direct.resolved
            &&& retried.failure == direct.failure
            &&& retried.fetched == direct.fetched.push(s.running[worker].url)
        }),
{
    let item = s.running[worker];
    let direct = step(s, CrawlEvent::Finish { worker, outcome });
    let timed_out = step(s, CrawlEvent::Finish { worker, outcome: Outcome::Timeout });
    assert(timed_out.queue =~= seq![again(item)]);
    let retaken = step(timed_out, CrawlEvent::Take);
    assert(retaken.queue =~= Seq::<QueuedView>::empty());
    assert(retaken.running == s.running.remove(worker).push(item));
    let last = retaken.running.len() - 1;
    assert(retaken.running[last] == item);
    assert(retaken.running.remove(last) =~= s.running.remove(worker));
    let retried = step(retaken, CrawlEvent::Finish { worker: last, outcome });
    assert(retried.queue =~= direct.queue);
    assert(retried.running =~= direct.running);
}

/// A worker's fatal error ends the crawl with that error: whatever was saved
/// before stays saved, and no later event changes the state.
pub proof fn lemma_fatal_is_final(
    s: CrawlState,
    worker: int,
    e: NovelError,
    later: Seq<CrawlEvent>,
)
    requires
        !halted(s),
        0 <= worker < s.running.len(),
    ensures
        ({
            let t = step(s, CrawlEvent::Finish { worker, outcome: Outcome::Failed(e) });
            &&& t.failure == Some(e)
            &&& t.saved == s.saved
            &&& t.sched == s.sched
            &&& run(t, later) == t
        }),
    decreases later.len(),
{
    let t = step(s, CrawlEvent::Finish { worker, outcome: Outcome::Failed(e) });
    if later.len() > 0 {
        lemma_fatal_is_final(s, worker, e, later.drop_last());
    }
}

/// After the count has reached zero no event changes the state: no further
/// work item exists or can come to exist.
pub proof fn lemma_done_is_final(s: CrawlState, later: Seq<CrawlEvent>)
    requires
        halted(s),
    ensures
        run(s, later) == s,
    decreases later.len(),
{
    if later.len() > 0 {
        lemma_done_is_final(s, later.drop_last());
    }
}

/// A crawl in which the coordinator takes one item after another and every
/// fetch ends before the next item is taken, each page saved and none
/// continued, run until its queue is empty.
pub open spec fn drained(s: CrawlState) -> CrawlState
    decreases s.queue.len(),
{
    if halted(s) || s.queue.len() == 0 {
        s
    } else {
        let taken = take(s);
        if taken.running.len() > 0 {
            drained(finish(taken, 0, Outcome::Page { next_page: None }))
        } else {
            drained(taken)
        }
    }
}

/// A sound crawl with no worker in flight drains to a count of exactly
/// zero, an empty queue and no failure, with every state on the way sound.
pub proof fn lemma_drained_to_zero(s: CrawlState)
    requires
        crawl_inv(s),
        s.running.len() == 0,
        s.failure is None,
    ensures
        crawl_inv(drained(s)),
        drained(s).sched.pending == 0,
        drained(s).queue.len() == 0,
        drained(s).running.len() == 0,
        drained(s).failure is None,
    decreases s.queue.len(),
{
    if halted(s) || s.queue.len() == 0 {
    } else {
        let taken = take(s);
        assert(taken == step(s, CrawlEvent::Take));
        lemma_step_inv(s, CrawlEvent::Take);
        if taken.running.len() > 0 {
            let event = CrawlEvent::Finish { worker: 0, outcome: Outcome::Page { next_page: None } };
            let done = finish(taken, 0, Outcome::Page { next_page: None });
            assert(!halted(taken));
            assert(done == step(taken, event));
            lemma_step_inv(taken, event);
            lemma_drained_to_zero(done);
        } else {
            lemma_drained_to_zero(taken);
        }
    }
}

/// Dedup: whatever the first batch holds, however many of its URLs are
/// repeated, a crawl of pages without continuations drains to a count of
/// exactly zero, and no URL is handed to a worker for the first time twice
/// on the way.
pub proof fn lemma_duplicates_drain_to_zero(initial: Seq<WorkItemView>)
    ensures
        drained(start(initial)).sched.pending == 0,
        drained(start(initial)).dispatched.no_duplicates(),
        drained(start(initial)).saved.len() <= drained(start(initial)).dispatched.len(),
{
    lemma_start_inv(initial);
    lemma_drained_to_zero(start(initial));
}

} // verus!
