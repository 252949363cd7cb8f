//! A crawler for serialised novels: the frontier of numbered work items, the
//! accounting of the concurrent crawl scheduler, the rules that turn fetched
//! pages into chapters, and the final concatenation of the saved chapters.

pub mod chapter;
pub mod combine;
pub mod crawl;
pub mod dom;
pub mod error;
pub mod extract;
pub mod fetch;
pub mod frontier;
pub mod item;
pub mod keys;
pub mod lines;
pub mod link;
pub mod pattern;
pub mod scheduler;
pub mod selector;
pub mod sites;
pub mod text;
pub mod worker;
