//! What a worker decides: what follows a fetch, what is written for a
//! chapter, and what is reported to the coordinator.

use vstd::prelude::*;
use crate::chapter::Chapter;
use crate::chapter::chapter_content;
use crate::chapter::file_name;
use crate::chapter::file_name_of;
use crate::error::NovelError;
use crate::error::is_timeout_error;
use crate::item::WorkItem;
use crate::item::WorkItemView;
use crate::item::continuation_of;
use crate::scheduler::Queued;
use crate::scheduler::WorkerReport;

verus! {

/// What a worker does once the fetch of its item has ended.
#[derive(Debug, Clone, PartialEq, Eq)]
pub enum WorkerStep {
    /// The page was read: its chapter is to be saved.
    Save { chapter: Chapter, next_page: Option<String> },
    /// The fetch timed out: the same item is to be enqueued again, marked as
    /// one to fetch again.
    Retry(Queued),
    /// The fetch or the extraction failed for good.
    Abort(NovelError),
}

/// The step that follows the fetch of `item`.
pub open spec fn step_after_fetch(
    item: WorkItem,
    fetched: Result<(Chapter, Option<String>), NovelError>,
) -> WorkerStep {
    match fetched {
        Ok(page) => WorkerStep::Save { chapter: page.0, next_page: page.1 },
        Err(e) => if is_timeout_error(e) {
            WorkerStep::Retry(Queued::Retry(item))
        } else {
            WorkerStep::Abort(e)
        },
    }
}

/// Decides what follows the fetch of `item`: a page is saved, a timeout sends
/// the same item back to the queue, any other error ends the crawl.
pub fn after_fetch(item: WorkItem, fetched: Result<(Chapter, Option<String>), NovelError>) -> (out:
    WorkerStep)
    ensures
        out == step_after_fetch(item, fetched),
{
    match fetched {
        Ok(page) => WorkerStep::Save { chapter: page.0, next_page: page.1 },
        Err(e) => {
            if e.is_timeout() {
                WorkerStep::Retry(Queued::Retry(item))
            } else {
                WorkerStep::Abort(e)
            }
        },
    }
}

/// What saving one chapter takes: the file, its text, and the item that
/// continues the chapter, if its page names a next page.
#[derive(Debug, Clone, PartialEq, Eq)]
pub struct SaveTask {
    pub file_name: String,
    pub content: String,
    pub continuation: Option<WorkItem>,
}

/// The item that follows a chapter whose page names `next_page`.
pub open spec fn continuation_for(order: Seq<char>, next_page: Option<String>) -> Option<
    WorkItemView,
> {
    match next_page {
        Some(url) => Some(continuation_of(order, url@)),
        None => None,
    }
}

/// Lays out the save of a chapter: its file is named after its order key and
/// holds title, blank line and text; a next page becomes a work item whose
/// key is the chapter's key with one more suffix.
pub fn process_save_task(chapter: &Chapter, next_page: Option<String>) -> (out: SaveTask)
    ensures
        out.file_name@ == file_name_of(chapter.order@),
        out.content@ == chapter_content(chapter.title@, chapter.text@),
        out.continuation is Some <==> next_page is Some,
        out.continuation is Some ==> out.continuation->0@ == continuation_of(
            chapter.order@,
            next_page->0@,
        ),
{
    let continuation = match next_page {
        Some(url) => Some(WorkItem::continuation(chapter.order.as_str(), url)),
        None => None,
    };
    SaveTask {
        file_name: file_name(chapter.order.as_str()),
        content: chapter.content(),
        continuation,
    }
}

/// The report that ends a save.
pub open spec fn report_of_save(
    continuation: Option<WorkItem>,
    written: Result<(), NovelError>,
) -> WorkerReport {
    match written {
        Err(e) => WorkerReport::Fatal(e),
        Ok(_) => if continuation is Some {
            WorkerReport::SavedAndRequeued
        } else {
            WorkerReport::Saved
        },
    }
}

/// What is enqueued when a save ends.
pub open spec fn enqueued_by_save(
    continuation: Option<WorkItem>,
    written: Result<(), NovelError>,
) -> Option<Queued> {
    match (written, continuation) {
        (Ok(_), Some(item)) => Some(Queued::Fresh(item)),
        _ => None,
    }
}

/// Ends a save. A failed write is fatal and enqueues nothing. After a good
/// write the continuation, if there is one, is handed back to be enqueued
/// as an item that enters the queue for the first time, and the report says
/// whether the chapter's place in the count passes on to it.
pub fn finish_save(continuation: Option<WorkItem>, written: Result<(), NovelError>) -> (out: (
    WorkerReport,
    Option<Queued>,
))
    ensures
        out.0 == report_of_save(continuation, written),
        out.1 == enqueued_by_save(continuation, written),
{
    match written {
        Err(e) => (WorkerReport::Fatal(e), None),
        Ok(_) => match continuation {
            Some(item) => (WorkerReport::SavedAndRequeued, Some(Queued::Fresh(item))),
            None => (WorkerReport::Saved, None),
        },
    }
}

} // verus!
