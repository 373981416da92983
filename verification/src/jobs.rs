//! Background work: the jobs, their schedule, and whether the scheduler runs.
use vstd::prelude::*;
use crate::text::same_text;

verus! {

/// Deletes sessions that expired more than a day ago.
#[derive(Debug, Clone, Copy, PartialEq, Eq, Structural)]
pub struct Cleanup;

/// Fetches, cleans, converts and summarizes a saved page.
#[derive(Debug, Clone, Copy, PartialEq, Eq, Structural)]
pub struct ProcessArticle {
    pub page_id: u128,
}

impl Cleanup {
    /// The job's registered name.
    pub fn name(&self) -> (r: String)
        ensures
            r@ == "sessions::cleanup"@,
    {
        String::from_str("sessions::cleanup")
    }
}

impl ProcessArticle {
    /// The job's registered name.
    pub fn name(&self) -> (r: String)
        ensures
            r@ == "process_article::ProcessArticle"@,
    {
        String::from_str("process_article::ProcessArticle")
    }
}

/// `h` hours, in seconds.
pub fn hours(h: u64) -> (r: u64)
    requires
        h * 3600 <= u64::MAX,
    ensures
        r == h * 3600,
{
    h * 60 * 60
}

/// How often `Cleanup` runs, in seconds: every hour.
pub fn cleanup_interval() -> (r: u64)
    ensures
        r == 3600,
{
    hours(1)
}

/// Whether the scheduler runs: unless `CRON_DISABLED` is `true`
/// (`setting` is its value, `default` stands in when it is unset).
pub fn cron_enabled(setting: Option<&str>, default: &str) -> (r: bool)
    ensures
        setting matches Some(v) ==> r == (v@ != "true"@),
        setting is None ==> r == (default@ != "true"@),
{
    match setting {
        Some(v) => !same_text(v, "true"),
        None => !same_text(default, "true"),
    }
}

} // verus!
