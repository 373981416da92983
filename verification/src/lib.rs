//! Verified core of the Knowledge reading-list service: the decisions and
//! text processing behind its command line, web pages and background jobs.
use vstd::prelude::*;

pub mod cli;
pub mod db;
pub mod ids;
pub mod jobs;
pub mod markdown;
pub mod page_snapshot;
pub mod pages;
pub mod prompts;
pub mod responses;
pub mod slack;
pub mod templates;
pub mod text;
pub mod urls;
pub mod users;

verus! {

} // verus!
