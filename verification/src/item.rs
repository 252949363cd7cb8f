//! Work items: one page to fetch, and the key that orders what it yields.

use vstd::prelude::*;

verus! {

/// The suffix that one continuation hop appends to its parent's order key.
pub open spec fn continuation_suffix() -> Seq<char> {
    seq!['_', 'n']
}

/// The order key of the page that continues the page with the given key.
pub open spec fn continuation_key_of(parent: Seq<char>) -> Seq<char> {
    parent + continuation_suffix()
}

/// A work item as contracts see it.
pub struct WorkItemView {
    pub order_key: Seq<char>,
    pub url: Seq<char>,
}

/// One page awaiting its fetch.
#[derive(Debug, Clone, PartialEq, Eq)]
pub struct WorkItem {
    pub order_key: String,
    pub url: String,
}

impl View for WorkItem {
    type V = WorkItemView;

    open spec fn view(&self) -> WorkItemView {
        WorkItemView { order_key: self.order_key@, url: self.url@ }
    }
}

/// The items of a list as contracts see them.
pub open spec fn views_of(items: Seq<WorkItem>) -> Seq<WorkItemView> {
    items.map_values(|item: WorkItem| item@)
}

/// The item that continues `parent` at `url`.
pub open spec fn continuation_of(parent: Seq<char>, url: Seq<char>) -> WorkItemView {
    WorkItemView { order_key: continuation_key_of(parent), url }
}

impl WorkItem {
    /// A work item from its two parts.
    pub fn new(order_key: String, url: String) -> (out: WorkItem)
        ensures
            out.order_key == order_key,
            out.url == url,
    {
        WorkItem { order_key, url }
    }

    /// The item for the page at `url` that continues the page with key `parent`.
    pub fn continuation(parent: &str, url: String) -> (out: WorkItem)
        ensures
            out@ == continuation_of(parent@, url@),
            out.url == url,
    {
        proof {
            reveal_strlit("_n");
        }
        let mut order_key = String::from_str(parent);
        order_key.append("_n");
        assert(order_key@ =~= continuation_key_of(parent@));
        WorkItem { order_key, url }
    }
}

} // verus!
