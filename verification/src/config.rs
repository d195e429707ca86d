use vstd::prelude::*;
use crate::clock::unix_now;
use crate::error::TwiggyError;
use crate::seqs::{keep_where, retain_flagged};
use crate::text::owned;

verus! {

/// Which colour scheme the interface follows.
#[derive(Debug, Clone, Copy, PartialEq, Eq, Structural)]
pub enum ThemeType {
    Light,
    Dark,
    System,
}

impl ThemeType {
    /// The scheme that a press of the theme switch leads to: dark from light,
    /// and light from anything else.
    pub fn toggled(self) -> (r: ThemeType)
        ensures
            r == if self == ThemeType::Light {
                ThemeType::Dark
            } else {
                ThemeType::Light
            },
    {
        match self {
            ThemeType::Light => ThemeType::Dark,
            ThemeType::Dark => ThemeType::Light,
            ThemeType::System => ThemeType::Light,
        }
    }
}

/// How much the application logs.
#[derive(Debug, Clone, Copy, PartialEq, Eq, Structural)]
pub enum LogLevel {
    Error,
    Warn,
    Info,
    Debug,
    Trace,
}

/// The settings of history loading and fetching.
#[derive(Debug, Clone)]
pub struct GitConfig {
    pub default_clone_path: String,
    pub max_commits: usize,
    pub default_branch: String,
    pub auto_fetch: bool,
    pub show_stashes: bool,
    pub fetch_interval_minutes: u32,
}

/// What the menus show.
#[derive(Debug, Clone, Copy, PartialEq, Eq, Structural)]
pub struct MenuPreferences {
    pub show_menu_bar: bool,
    pub show_keyboard_shortcuts: bool,
    pub compact_menus: bool,
    pub show_icons: bool,
}

/// The settings of caching and background work.
#[derive(Debug, Clone, Copy, PartialEq, Eq, Structural)]
pub struct PerformanceConfig {
    pub enable_caching: bool,
    pub cache_size_mb: usize,
    pub enable_background_operations: bool,
    pub max_background_threads: usize,
    pub target_fps: u32,
}

/// The settings of the log files.
#[derive(Debug, Clone)]
pub struct LoggingConfig {
    pub level: LogLevel,
    pub file_enabled: bool,
    pub console_enabled: bool,
    pub max_file_size: u64,
    pub max_files: usize,
    pub log_directory: Option<String>,
}

/// The version a configuration without a version field is taken to have.
pub fn default_version() -> (v: u32)
    ensures
        v == 1,
{
    1
}

/// The newest configuration version.
pub const CURRENT_VERSION: u32 = 1;

/// Brings a configuration version up to date: the version to store, and whether
/// it changed.
pub fn migrate_version(version: u32) -> (r: (u32, bool))
    ensures
        r.0 == if version < 1 {
            1u32
        } else {
            version
        },
        r.1 == (version < 1),
{
    if version < CURRENT_VERSION {
        (CURRENT_VERSION, true)
    } else {
        (version, false)
    }
}

impl Default for MenuPreferences {
    /// The menu bar and its shortcuts shown, at full size, without icons.
    fn default() -> (r: MenuPreferences)
        ensures
            r == (MenuPreferences {
                show_menu_bar: true,
                show_keyboard_shortcuts: true,
                compact_menus: false,
                show_icons: false,
            }),
    {
        MenuPreferences {
            show_menu_bar: true,
            show_keyboard_shortcuts: true,
            compact_menus: false,
            show_icons: false,
        }
    }
}

impl Default for PerformanceConfig {
    /// Caching in 100 MB, background work on four threads, sixty frames a second.
    fn default() -> (r: PerformanceConfig)
        ensures
            r == (PerformanceConfig {
                enable_caching: true,
                cache_size_mb: 100,
                enable_background_operations: true,
                max_background_threads: 4,
                target_fps: 60,
            }),
    {
        PerformanceConfig {
            enable_caching: true,
            cache_size_mb: 100,
            enable_background_operations: true,
            max_background_threads: 4,
            target_fps: 60,
        }
    }
}

impl Default for LoggingConfig {
    /// Level `Info`, into up to five files of ten mebibytes in the default
    /// directory, and not to the console.
    fn default() -> (r: LoggingConfig)
        ensures
            r.level == LogLevel::Info,
            r.file_enabled,
            !r.console_enabled,
            r.max_file_size == 10 * 1024 * 1024,
            r.max_files == 5,
            r.log_directory is None,
    {
        LoggingConfig {
            level: LogLevel::Info,
            file_enabled: true,
            console_enabled: false,
            max_file_size: 10 * 1024 * 1024,
            max_files: 5,
            log_directory: None,
        }
    }
}

impl GitConfig {
    /// The default settings, cloning into `default_clone_path`: up to 1000
    /// commits, branch "main", a fetch every fifteen minutes, stashes hidden.
    pub fn with_clone_path(default_clone_path: String) -> (r: GitConfig)
        ensures
            r.default_clone_path == default_clone_path,
            r.max_commits == 1000,
            r.default_branch@ == "main"@,
            r.auto_fetch,
            !r.show_stashes,
            r.fetch_interval_minutes == 15,
    {
        GitConfig {
            default_clone_path,
            max_commits: 1000,
            default_branch: owned("main"),
            auto_fetch: true,
            show_stashes: false,
            fetch_interval_minutes: 15,
        }
    }
}

/// An integer setting that is out of its range.
#[derive(Debug, Clone, Copy, PartialEq, Eq, Structural)]
pub enum LimitFault {
    MaxCommits,
    FetchInterval,
    CacheSize,
    BackgroundThreads,
    TargetFps,
}

/// The first integer setting out of its range, in the order in which they are
/// checked: commits 1 to 10000, fetch interval 1 to 1440 minutes, cache 1 to
/// 2048 MB, threads 1 to 16, frames 30 to 144 a second.
pub open spec fn first_limit_fault(git: GitConfig, performance: PerformanceConfig) -> Option<
    LimitFault,
> {
    if git.max_commits == 0 || git.max_commits > 10000 {
        Some(LimitFault::MaxCommits)
    } else if git.fetch_interval_minutes == 0 || git.fetch_interval_minutes > 1440 {
        Some(LimitFault::FetchInterval)
    } else if performance.cache_size_mb == 0 || performance.cache_size_mb > 2048 {
        Some(LimitFault::CacheSize)
    } else if performance.max_background_threads == 0 || performance.max_background_threads > 16 {
        Some(LimitFault::BackgroundThreads)
    } else if performance.target_fps < 30 || performance.target_fps > 144 {
        Some(LimitFault::TargetFps)
    } else {
        None
    }
}

impl LimitFault {
    /// The name of the setting at fault.
    pub open spec fn field(self) -> Seq<char> {
        match self {
            LimitFault::MaxCommits => "git.max_commits"@,
            LimitFault::FetchInterval => "git.fetch_interval_minutes"@,
            LimitFault::CacheSize => "performance.cache_size_mb"@,
            LimitFault::BackgroundThreads => "performance.max_background_threads"@,
            LimitFault::TargetFps => "performance.target_fps"@,
        }
    }

    /// The sentence that states the range.
    pub open spec fn message(self) -> Seq<char> {
        match self {
            LimitFault::MaxCommits => "Max commits must be between 1 and 10000"@,
            LimitFault::FetchInterval => "Fetch interval must be between 1 and 1440 minutes"@,
            LimitFault::CacheSize => "Cache size must be between 1 and 2048 MB"@,
            LimitFault::BackgroundThreads => "Max background threads must be between 1 and 16"@,
            LimitFault::TargetFps => "Target FPS must be between 30 and 144"@,
        }
    }

    /// The validation error that reports this fault.
    pub fn into_error(self) -> (e: TwiggyError)
        ensures
            e matches TwiggyError::Validation { field, message } && field@ == self.field()
                && message@ == self.message(),
    {
        match self {
            LimitFault::MaxCommits => TwiggyError::Validation {
                field: owned("git.max_commits"),
                message: owned("Max commits must be between 1 and 10000"),
            },
            LimitFault::FetchInterval => TwiggyError::Validation {
                field: owned("git.fetch_interval_minutes"),
                message: owned("Fetch interval must be between 1 and 1440 minutes"),
            },
            LimitFault::CacheSize => TwiggyError::Validation {
                field: owned("performance.cache_size_mb"),
                message: owned("Cache size must be between 1 and 2048 MB"),
            },
            LimitFault::BackgroundThreads => TwiggyError::Validation {
                field: owned("performance.max_background_threads"),
                message: owned("Max background threads must be between 1 and 16"),
            },
            LimitFault::TargetFps => TwiggyError::Validation {
                field: owned("performance.target_fps"),
                message: owned("Target FPS must be between 30 and 144"),
            },
        }
    }
}

/// Finds the first integer setting that is out of its range.
pub fn check_limits(git: &GitConfig, performance: &PerformanceConfig) -> (r: Option<LimitFault>)
    ensures
        r == first_limit_fault(*git, *performance),
{
    if git.max_commits == 0 || git.max_commits > 10000 {
        Some(LimitFault::MaxCommits)
    } else if git.fetch_interval_minutes == 0 || git.fetch_interval_minutes > 1440 {
        Some(LimitFault::FetchInterval)
    } else if performance.cache_size_mb == 0 || performance.cache_size_mb > 2048 {
        Some(LimitFault::CacheSize)
    } else if performance.max_background_threads == 0 || performance.max_background_threads > 16 {
        Some(LimitFault::BackgroundThreads)
    } else if performance.target_fps < 30 || performance.target_fps > 144 {
        Some(LimitFault::TargetFps)
    } else {
        None
    }
}

/// Checks the integer settings: succeeds where each is in its range, and
/// otherwise fails with the validation error of the first that is not.
pub fn validate_limits(git: &GitConfig, performance: &PerformanceConfig) -> (r: Result<
    (),
    TwiggyError,
>)
    ensures
        match first_limit_fault(*git, *performance) {
            None => r is Ok,
            Some(fault) => r matches Err(TwiggyError::Validation { field, message })
                && field@ == fault.field() && message@ == fault.message(),
        },
{
    match check_limits(git, performance) {
        None => Ok(()),
        Some(fault) => Err(fault.into_error()),
    }
}

/// A store that was opened lately: where it is, what it is called, and when
/// it was last opened, in seconds since the epoch.
#[derive(Debug)]
pub struct RecentRepository {
    pub path: String,
    pub name: String,
    pub last_opened: i64,
}

impl Clone for RecentRepository {
    fn clone(&self) -> (r: RecentRepository)
        ensures
            r == *self,
    {
        RecentRepository {
            path: self.path.clone(),
            name: self.name.clone(),
            last_opened: self.last_opened,
        }
    }
}

/// The stores opened lately, the latest first, each path once.
#[derive(Debug, Clone)]
pub struct RecentRepositories {
    pub repositories: Vec<RecentRepository>,
    pub max_count: usize,
}

/// For each entry, whether its path differs from `path`.
pub open spec fn other_paths(entries: Seq<RecentRepository>, path: Seq<char>) -> Seq<bool> {
    Seq::new(entries.len(), |i: int| entries[i].path@ != path)
}

/// The entries whose path differs from `path`, in their order.
pub open spec fn without_path(entries: Seq<RecentRepository>, path: Seq<char>) -> Seq<
    RecentRepository,
> {
    keep_where(entries, other_paths(entries, path))
}

/// The list after a store has been opened: the store comes first, any older
/// entry of its path is gone, and what exceeds `max` entries falls off the end.
pub open spec fn after_opening(
    entries: Seq<RecentRepository>,
    opened: RecentRepository,
    max: int,
) -> Seq<RecentRepository> {
    let grown = seq![opened] + without_path(entries, opened.path@);
    if grown.len() > max {
        grown.take(max)
    } else {
        grown
    }
}

impl Default for RecentRepositories {
    /// An empty list of up to ten entries.
    fn default() -> (r: RecentRepositories)
        ensures
            r.repositories@.len() == 0,
            r.max_count == 10,
    {
        RecentRepositories { repositories: Vec::new(), max_count: 10 }
    }
}

impl RecentRepositories {
    /// Removes the entries of a path.
    pub fn remove_repository(&mut self, path: &str)
        ensures
            final(self).max_count == old(self).max_count,
            final(self).repositories@ == without_path(old(self).repositories@, path@),
    {
        let wanted = owned(path);
        let mut keep: Vec<bool> = Vec::new();
        let mut i: usize = 0;
        while i < self.repositories.len()
            invariant
                wanted@ == path@,
                i <= self.repositories@.len(),
                keep@ == other_paths(self.repositories@, path@).take(i as int),
            decreases self.repositories@.len() - i,
        {
            let differs = !(self.repositories[i].path == wanted);
            keep.push(differs);
            assert(keep@ =~= other_paths(self.repositories@, path@).take(i + 1));
            i = i + 1;
        }
        assert(keep@ =~= other_paths(self.repositories@, path@));
        retain_flagged(&mut self.repositories, &keep);
    }

    /// Records that a store was opened at the time `now`: it comes first, any
    /// older entry of its path goes, and the list is cut to its maximum.
    pub fn add_repository_at(&mut self, path: String, name: String, now: i64)
        ensures
            final(self).max_count == old(self).max_count,
            final(self).repositories@ == after_opening(
                old(self).repositories@,
                (RecentRepository { path, name, last_opened: now }),
                old(self).max_count as int,
            ),
    {
        self.remove_repository(path.as_str());
        let ghost kept = self.repositories@;
        let opened = RecentRepository { path, name, last_opened: now };
        if self.repositories.len() == usize::MAX {
            self.repositories.truncate(usize::MAX - 1);
            assert(self.repositories@ =~= kept.take(usize::MAX - 1));
        }
        let ghost fitted = self.repositories@;
        self.repositories.insert(0, opened);
        assert(self.repositories@ =~= seq![opened] + fitted);
        if self.repositories.len() > self.max_count {
            self.repositories.truncate(self.max_count);
        }
        assert(self.repositories@ =~= after_opening(
            old(self).repositories@,
            opened,
            old(self).max_count as int,
        ));
    }

    /// Records that a store was opened now, by the clock.
    pub fn add_repository(&mut self, path: String, name: String)
        ensures
            final(self).max_count == old(self).max_count,
            exists|now: i64|
                final(self).repositories@ == after_opening(
                    old(self).repositories@,
                    (RecentRepository { path, name, last_opened: now }),
                    old(self).max_count as int,
                ),
    {
        let now = unix_now();
        self.add_repository_at(path, name, now);
        assert(self.repositories@ == after_opening(
            old(self).repositories@,
            (RecentRepository { path, name, last_opened: now }),
            old(self).max_count as int,
        ));
    }

    /// Drops the stores that are no longer there, where `exists` says of each
    /// entry whether its path is still on disk. Flags that do not match the
    /// entries one for one change nothing.
    pub fn validate_and_clean(&mut self, exists: &Vec<bool>)
        ensures
            final(self).max_count == old(self).max_count,
            final(self).repositories@ == if exists@.len() == old(self).repositories@.len() {
                keep_where(old(self).repositories@, exists@)
            } else {
                old(self).repositories@
            },
    {
        if exists.len() == self.repositories.len() {
            retain_flagged(&mut self.repositories, exists);
        }
    }

    /// Forgets every store.
    pub fn clear(&mut self)
        ensures
            final(self).max_count == old(self).max_count,
            final(self).repositories@.len() == 0,
    {
        self.repositories.clear();
    }
}

} // verus!
