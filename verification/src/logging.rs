use vstd::prelude::*;
use crate::text::owned;

verus! {

/// Where and how much the application logs.
#[derive(Debug, Clone)]
pub struct LoggingConfig {
    pub log_level: String,
    pub log_to_file: bool,
    pub log_to_console: bool,
    pub log_directory: String,
    pub max_log_files: usize,
}

impl LoggingConfig {
    /// The default settings for a log directory: level "info", to file and
    /// console, keeping ten files.
    pub fn with_directory(log_directory: String) -> (r: LoggingConfig)
        ensures
            r.log_level@ == "info"@,
            r.log_to_file,
            r.log_to_console,
            r.log_directory == log_directory,
            r.max_log_files == 10,
    {
        LoggingConfig {
            log_level: owned("info"),
            log_to_file: true,
            log_to_console: true,
            log_directory,
            max_log_files: 10,
        }
    }
}

/// Runs an operation under a name and hands back what it returns.
pub fn log_performance<T, F>(operation: &str, func: F) -> (r: T) where F: FnOnce() -> T
    requires
        func.requires(()),
    ensures
        func.ensures((), r),
{
    func()
}

/// Whether the file at `j` comes before the file at `i` when log files are
/// listed newest first: it was modified later, or at the same time and stands
/// earlier.
pub open spec fn comes_before(times: Seq<u128>, j: int, i: int) -> bool {
    times[j] > times[i] || (times[j] == times[i] && j < i)
}

/// The number of files among the first `k` that come before the file at `i`.
pub open spec fn count_before(times: Seq<u128>, i: int, k: int) -> nat
    decreases k,
{
    if k <= 0 {
        0
    } else {
        count_before(times, i, k - 1) + if comes_before(times, k - 1, i) {
            1nat
        } else {
            0nat
        }
    }
}

/// Whether the file at `i` is to be removed when only the `max_files` newest
/// are kept: at least that many files come before it.
pub open spec fn is_stale(times: Seq<u128>, i: int, max_files: int) -> bool {
    count_before(times, i, times.len() as int) >= max_files
}

/// Says of each log file, by its time of modification, whether it is to be
/// removed so that only the `max_files` newest stay.
pub fn stale_logs(times: &Vec<u128>, max_files: usize) -> (r: Vec<bool>)
    ensures
        r@.len() == times@.len(),
        forall|i: int| 0 <= i < r@.len() ==> r@[i] == is_stale(times@, i, max_files as int),
{
    let mut flags: Vec<bool> = Vec::new();
    let mut i: usize = 0;
    while i < times.len()
        invariant
            i <= times@.len(),
            flags@.len() == i,
            forall|a: int| 0 <= a < i ==> flags@[a] == is_stale(times@, a, max_files as int),
        decreases times@.len() - i,
    {
        let mut before: usize = 0;
        let mut j: usize = 0;
        while j < times.len()
            invariant
                i < times@.len(),
                j <= times@.len(),
                before == count_before(times@, i as int, j as int),
                before <= j,
            decreases times@.len() - j,
        {
            if times[j] > times[i] || (times[j] == times[i] && j < i) {
                before = before + 1;
            }
            j = j + 1;
        }
        flags.push(before >= max_files);
        i = i + 1;
    }
    flags
}

} // verus!
