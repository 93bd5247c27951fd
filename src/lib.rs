//! A small task tracker: an ordered list of tasks that one command at a time
//! adds to, edits, removes from, re-statuses or lists.
pub mod task;
pub mod store;
pub mod listing;
pub mod args;
pub mod command;
pub mod laws;
