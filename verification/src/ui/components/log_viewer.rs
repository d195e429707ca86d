use vstd::prelude::*;
use crate::seqs::{keep_where, lemma_keep_where_member, lemma_keep_where_push, retain_flagged};
use crate::text::{
    contains_text,
    cut,
    cut_at,
    join3,
    lower,
    lower_of,
    occurs_in,
    owned,
    upper,
    upper_of,
};
use vstd::string::*;

verus! {

/// The level of a log line.
#[derive(Debug, Clone, Copy, PartialEq, Eq, Structural)]
pub enum LogLevel {
    Trace,
    Debug,
    Info,
    Warn,
    Error,
}

/// The level that an upper-case name stands for.
pub open spec fn level_named(name: Seq<char>) -> Option<LogLevel> {
    if name == "TRACE"@ {
        Some(LogLevel::Trace)
    } else if name == "DEBUG"@ {
        Some(LogLevel::Debug)
    } else if name == "INFO"@ {
        Some(LogLevel::Info)
    } else if name == "WARN"@ {
        Some(LogLevel::Warn)
    } else if name == "ERROR"@ {
        Some(LogLevel::Error)
    } else {
        None
    }
}

impl LogLevel {
    /// Reads a level from its upper-case name.
    pub fn from_upper(name: &str) -> (r: Option<LogLevel>)
        ensures
            r == level_named(name@),
    {
        let name = owned(name);
        if name == owned("TRACE") {
            Some(LogLevel::Trace)
        } else if name == owned("DEBUG") {
            Some(LogLevel::Debug)
        } else if name == owned("INFO") {
            Some(LogLevel::Info)
        } else if name == owned("WARN") {
            Some(LogLevel::Warn)
        } else if name == owned("ERROR") {
            Some(LogLevel::Error)
        } else {
            None
        }
    }

    /// Reads a level from its name in any case.
    pub fn from_str(s: &str) -> (r: Option<LogLevel>)
        ensures
            r == level_named(upper_of(s@)),
    {
        let name = upper(s);
        LogLevel::from_upper(name.as_str())
    }
}

/// What the log viewer shows.
#[derive(Debug, Clone)]
pub struct LogViewerState {
    pub search_text: String,
    pub selected_levels: Vec<LogLevel>,
    pub auto_scroll: bool,
    pub show_timestamps: bool,
    pub show_targets: bool,
}

impl Default for LogViewerState {
    /// No search text, no level selected, every switch off.
    fn default() -> (r: LogViewerState)
        ensures
            r.search_text@.len() == 0,
            r.selected_levels@.len() == 0,
            !r.auto_scroll,
            !r.show_timestamps,
            !r.show_targets,
    {
        LogViewerState {
            search_text: String::new(),
            selected_levels: Vec::new(),
            auto_scroll: false,
            show_timestamps: false,
            show_targets: false,
        }
    }
}

impl LogViewerState {
    /// The state a viewer starts in: levels Info, Warn and Error selected,
    /// timestamps and targets shown, scrolling with the log.
    pub fn initial() -> (r: LogViewerState)
        ensures
            r.search_text@.len() == 0,
            r.selected_levels@ == seq![LogLevel::Info, LogLevel::Warn, LogLevel::Error],
            r.auto_scroll,
            r.show_timestamps,
            r.show_targets,
    {
        let mut levels: Vec<LogLevel> = Vec::new();
        levels.push(LogLevel::Info);
        levels.push(LogLevel::Warn);
        levels.push(LogLevel::Error);
        assert(levels@ =~= seq![LogLevel::Info, LogLevel::Warn, LogLevel::Error]);
        LogViewerState {
            search_text: String::new(),
            selected_levels: levels,
            auto_scroll: true,
            show_timestamps: true,
            show_targets: true,
        }
    }

    /// Whether lines of a level are shown.
    pub fn shows_level(&self, level: LogLevel) -> (r: bool)
        ensures
            r == self.selected_levels@.contains(level),
    {
        let mut i: usize = 0;
        while i < self.selected_levels.len()
            invariant
                i <= self.selected_levels.len(),
                forall|j: int| 0 <= j < i ==> self.selected_levels@[j] != level,
            decreases self.selected_levels.len() - i,
        {
            if self.selected_levels[i] == level {
                return true;
            }
            i = i + 1;
        }
        false
    }
}

/// The instant that a text in RFC 3339 form stands for, in milliseconds since
/// the epoch, as `chrono` reads it; nothing where `chrono` refuses the text.
pub uninterp spec fn rfc3339_instant(text: Seq<char>) -> Option<int>;

/// Reads an instant with `chrono::DateTime::parse_from_rfc3339` and gives it in
/// milliseconds since the epoch, or nothing where the text is refused.
#[verifier::external_body]
fn read_rfc3339(text: &str) -> (r: Option<i64>)
    ensures
        match r {
            Some(instant) => rfc3339_instant(text@) == Some(instant as int),
            None => rfc3339_instant(text@) is None,
        },
{
    chrono::DateTime::parse_from_rfc3339(text).ok().map(|t| t.timestamp_millis())
}

/// One line of the log: when it was written, in milliseconds since the epoch,
/// at which level, by what, and what it says.
#[derive(Debug)]
pub struct LogEntry {
    pub timestamp: i64,
    pub level: LogLevel,
    pub target: String,
    pub message: String,
    pub raw_line: String,
}

/// What a `LogEntry` holds.
pub ghost struct LogEntryView {
    pub timestamp: int,
    pub level: LogLevel,
    pub target: Seq<char>,
    pub message: Seq<char>,
    pub raw_line: Seq<char>,
}

impl View for LogEntry {
    type V = LogEntryView;

    open spec fn view(&self) -> LogEntryView {
        LogEntryView {
            timestamp: self.timestamp as int,
            level: self.level,
            target: self.target@,
            message: self.message@,
            raw_line: self.raw_line@,
        }
    }
}

impl Clone for LogEntry {
    fn clone(&self) -> (r: LogEntry)
        ensures
            r@ == self@,
    {
        LogEntry {
            timestamp: self.timestamp,
            level: self.level,
            target: self.target.clone(),
            message: self.message.clone(),
            raw_line: self.raw_line.clone(),
        }
    }
}

/// The entry that a line of the log stands for.
///
/// A line has five parts, divided by its first four spaces: date, time, level,
/// target and message. The date and the time, joined by a space, must be an
/// instant in RFC 3339 form, and the level must be the name of a level in any
/// case. Any other line stands for nothing.
pub open spec fn entry_of(line: Seq<char>) -> Option<LogEntryView> {
    match cut_at(line, ' ') {
        Some((date, after_date)) => match cut_at(after_date, ' ') {
            Some((time, after_time)) => match cut_at(after_time, ' ') {
                Some((level, after_level)) => match cut_at(after_level, ' ') {
                    Some((target, message)) => match (
                        rfc3339_instant(date + " "@ + time),
                        level_named(upper_of(level)),
                    ) {
                        (Some(timestamp), Some(level)) => Some(
                            LogEntryView { timestamp, level, target, message, raw_line: line },
                        ),
                        _ => None,
                    },
                    None => None,
                },
                None => None,
            },
            None => None,
        },
        None => None,
    }
}

impl LogEntry {
    /// Reads one line of the log.
    pub fn parse(line: &str) -> (r: Option<LogEntry>)
        ensures
            match r {
                Some(entry) => entry_of(line@) == Some(entry@),
                None => entry_of(line@) is None,
            },
    {
        let (date, after_date) = match cut(line, ' ') {
            Some(parts) => parts,
            None => {
                return None;
            },
        };
        let (time, after_time) = match cut(after_date.as_str(), ' ') {
            Some(parts) => parts,
            None => {
                return None;
            },
        };
        let (level, after_level) = match cut(after_time.as_str(), ' ') {
            Some(parts) => parts,
            None => {
                return None;
            },
        };
        let (target, message) = match cut(after_level.as_str(), ' ') {
            Some(parts) => parts,
            None => {
                return None;
            },
        };
        let stamp = join3(date.as_str(), " ", time.as_str());
        let timestamp = match read_rfc3339(stamp.as_str()) {
            Some(timestamp) => timestamp,
            None => {
                return None;
            },
        };
        let level = match LogLevel::from_str(level.as_str()) {
            Some(level) => level,
            None => {
                return None;
            },
        };
        Some(LogEntry { timestamp, level, target, message, raw_line: owned(line) })
    }
}

/// Whether an entry is shown under a selection of levels and a search text:
/// its level is selected, and the search text is empty or occurs, whatever
/// the case, in its message or its target.
pub open spec fn entry_shown(entry: LogEntryView, levels: Seq<LogLevel>, search: Seq<char>) -> bool {
    &&& levels.contains(entry.level)
    &&& (search.len() == 0 || occurs_in(lower_of(search), lower_of(entry.message)) || occurs_in(
        lower_of(search),
        lower_of(entry.target),
    ))
}

/// What each entry of a sequence holds.
pub open spec fn entry_views(entries: Seq<LogEntry>) -> Seq<LogEntryView> {
    entries.map_values(|e: LogEntry| e@)
}

/// For each entry, whether it is shown.
pub open spec fn shown_mask(entries: Seq<LogEntryView>, levels: Seq<LogLevel>, search: Seq<char>) -> Seq<
    bool,
> {
    Seq::new(entries.len(), |i: int| entry_shown(entries[i], levels, search))
}

/// The places from zero up to `n`.
pub open spec fn places(n: nat) -> Seq<usize> {
    Seq::new(n, |i: int| i as usize)
}

/// The places of the entries that are shown, in their order.
pub open spec fn shown_places(entries: Seq<LogEntryView>, levels: Seq<LogLevel>, search: Seq<char>) -> Seq<
    usize,
> {
    keep_where(places(entries.len()), shown_mask(entries, levels, search))
}

/// The entries that the lines of a log stand for, in their order.
pub open spec fn entries_of(lines: Seq<String>) -> Seq<LogEntryView>
    decreases lines.len(),
{
    if lines.len() == 0 {
        Seq::empty()
    } else {
        match entry_of(lines.last()@) {
            Some(entry) => entries_of(lines.drop_last()).push(entry),
            None => entries_of(lines.drop_last()),
        }
    }
}

/// For each level of a selection, whether it differs from `level`.
pub open spec fn other_levels(levels: Seq<LogLevel>, level: LogLevel) -> Seq<bool> {
    Seq::new(levels.len(), |i: int| levels[i] != level)
}

/// The levels after one has been switched on or off: switched on it joins the
/// end of the selection unless it is selected already, and switched off every
/// occurrence of it leaves.
pub open spec fn levels_after(levels: Seq<LogLevel>, level: LogLevel, selected: bool) -> Seq<
    LogLevel,
> {
    if selected {
        if levels.contains(level) {
            levels
        } else {
            levels.push(level)
        }
    } else {
        keep_where(levels, other_levels(levels, level))
    }
}

/// The text of an export: each line that is given, followed by a line break.
pub open spec fn lines_joined(lines: Seq<Seq<char>>) -> Seq<char>
    decreases lines.len(),
{
    if lines.len() == 0 {
        Seq::empty()
    } else {
        lines_joined(lines.drop_last()) + lines.last() + "\n"@
    }
}

/// The entries of a log and those of them that the state of the viewer shows.
pub struct LogViewer {
    entries: Vec<LogEntry>,
    filtered_entries: Vec<usize>,
    state: LogViewerState,
}

impl LogViewer {
    /// The entries held.
    pub closed spec fn held(&self) -> Seq<LogEntryView> {
        entry_views(self.entries@)
    }

    /// The places of the entries that are shown.
    pub closed spec fn shown(&self) -> Seq<usize> {
        self.filtered_entries@
    }

    /// The levels selected.
    pub closed spec fn levels(&self) -> Seq<LogLevel> {
        self.state.selected_levels@
    }

    /// The search text.
    pub closed spec fn search(&self) -> Seq<char> {
        self.state.search_text@
    }

    /// How entries are displayed: whether the view follows the end of the log,
    /// and whether times and targets are shown.
    pub closed spec fn display(&self) -> (bool, bool, bool) {
        (self.state.auto_scroll, self.state.show_timestamps, self.state.show_targets)
    }

    /// Whether the viewer is well formed: the places shown are those of the
    /// entries that its state shows.
    pub open spec fn wf(&self) -> bool {
        self.shown() == shown_places(self.held(), self.levels(), self.search())
    }

    /// A viewer without entries, in the initial state.
    pub fn new() -> (r: LogViewer)
        ensures
            r.wf(),
            r.held().len() == 0,
            r.levels() == seq![LogLevel::Info, LogLevel::Warn, LogLevel::Error],
            r.search().len() == 0,
    {
        let r = LogViewer {
            entries: Vec::new(),
            filtered_entries: Vec::new(),
            state: LogViewerState::initial(),
        };
        assert(r.held() =~= Seq::<LogEntryView>::empty());
        r
    }

    /// The entries held.
    pub fn entries(&self) -> (r: &Vec<LogEntry>)
        ensures
            entry_views(r@) == self.held(),
    {
        &self.entries
    }

    /// The places of the entries that are shown.
    pub fn filtered_entries(&self) -> (r: &Vec<usize>)
        ensures
            r@ == self.shown(),
    {
        &self.filtered_entries
    }

    /// The state of the viewer.
    pub fn state(&self) -> (r: &LogViewerState)
        ensures
            r.selected_levels@ == self.levels(),
            r.search_text@ == self.search(),
            (r.auto_scroll, r.show_timestamps, r.show_targets) == self.display(),
    {
        &self.state
    }

    /// Whether the state of the viewer shows an entry.
    pub fn shows(&self, entry: &LogEntry) -> (r: bool)
        ensures
            r == entry_shown(entry@, self.levels(), self.search()),
    {
        if !self.state.shows_level(entry.level) {
            return false;
        }
        if self.state.search_text.as_str().unicode_len() == 0 {
            return true;
        }
        let search = lower(self.state.search_text.as_str());
        let message = lower(entry.message.as_str());
        if contains_text(message.as_str(), search.as_str()) {
            return true;
        }
        let target = lower(entry.target.as_str());
        contains_text(target.as_str(), search.as_str())
    }

    /// Works out afresh which entries are shown.
    pub fn apply_filters(&mut self)
        ensures
            final(self).wf(),
            final(self).held() == old(self).held(),
            final(self).levels() == old(self).levels(),
            final(self).search() == old(self).search(),
    {
        let ghost held = self.held();
        let ghost mask = shown_mask(held, self.levels(), self.search());
        let ghost spots = places(held.len());
        let mut shown: Vec<usize> = Vec::new();
        let mut i: usize = 0;
        proof {
            assert(spots.take(0) =~= Seq::<usize>::empty());
            assert(mask.take(0) =~= Seq::<bool>::empty());
        }
        while i < self.entries.len()
            invariant
                i <= self.entries@.len(),
                held == entry_views(self.entries@),
                mask == shown_mask(held, self.levels(), self.search()),
                spots == places(held.len()),
                shown@ == keep_where(spots.take(i as int), mask.take(i as int)),
                self.held() == old(self).held(),
                self.levels() == old(self).levels(),
                self.search() == old(self).search(),
            decreases self.entries@.len() - i,
        {
            let hit = self.shows(&self.entries[i]);
            proof {
                lemma_keep_where_push(spots.take(i as int), mask.take(i as int), i, hit);
                assert(spots.take(i as int).push(i) =~= spots.take(i + 1));
                assert(mask.take(i as int).push(hit) =~= mask.take(i + 1));
            }
            if hit {
                shown.push(i);
            }
            i = i + 1;
        }
        proof {
            assert(spots.take(held.len() as int) =~= spots);
            assert(mask.take(held.len() as int) =~= mask);
        }
        self.filtered_entries = shown;
    }

    /// Takes the lines of a log: the entries become those that the lines stand
    /// for, and what is shown is worked out afresh.
    pub fn load_lines(&mut self, lines: &Vec<String>)
        ensures
            final(self).wf(),
            final(self).held() == entries_of(lines@),
            final(self).levels() == old(self).levels(),
            final(self).search() == old(self).search(),
    {
        let mut entries: Vec<LogEntry> = Vec::new();
        let mut i: usize = 0;
        proof {
            assert(lines@.take(0) =~= Seq::<String>::empty());
            assert(entry_views(entries@) =~= Seq::<LogEntryView>::empty());
        }
        while i < lines.len()
            invariant
                i <= lines@.len(),
                entry_views(entries@) == entries_of(lines@.take(i as int)),
            decreases lines@.len() - i,
        {
            let ghost so_far = entry_views(entries@);
            proof {
                assert(lines@.take(i + 1).drop_last() =~= lines@.take(i as int));
                assert(lines@.take(i + 1).last() == lines@[i as int]);
            }
            match LogEntry::parse(lines[i].as_str()) {
                Some(entry) => {
                    entries.push(entry);
                    assert(entry_views(entries@) =~= so_far.push(entry@));
                },
                None => {},
            }
            i = i + 1;
        }
        proof {
            assert(lines@.take(lines@.len() as int) =~= lines@);
        }
        self.entries = entries;
        self.apply_filters();
    }

    /// Sets the search text and works out afresh what is shown.
    pub fn set_search_text(&mut self, text: String)
        ensures
            final(self).wf(),
            final(self).held() == old(self).held(),
            final(self).levels() == old(self).levels(),
            final(self).search() == text@,
    {
        self.state.search_text = text;
        self.apply_filters();
    }

    /// Switches a level on or off and works out afresh what is shown.
    pub fn set_level(&mut self, level: LogLevel, selected: bool)
        ensures
            final(self).wf(),
            final(self).held() == old(self).held(),
            final(self).levels() == levels_after(old(self).levels(), level, selected),
            final(self).search() == old(self).search(),
    {
        if selected {
            if !self.state.shows_level(level) {
                self.state.selected_levels.push(level);
            }
            assert(self.levels() == levels_after(old(self).levels(), level, true));
        } else {
            let ghost before = self.state.selected_levels@;
            let mut keep: Vec<bool> = Vec::new();
            let mut i: usize = 0;
            while i < self.state.selected_levels.len()
                invariant
                    i <= self.state.selected_levels@.len(),
                    before == self.state.selected_levels@,
                    keep@ == other_levels(before, level).take(i as int),
                decreases self.state.selected_levels@.len() - i,
            {
                keep.push(self.state.selected_levels[i] != level);
                assert(keep@ =~= other_levels(before, level).take(i + 1));
                i = i + 1;
            }
            assert(keep@ =~= other_levels(before, level));
            retain_flagged(&mut self.state.selected_levels, &keep);
            assert(before == old(self).levels());
            assert(self.levels() == levels_after(old(self).levels(), level, false));
        }
        self.apply_filters();
    }

    /// Sets how entries are displayed: whether the view follows the end of the
    /// log, and whether times and targets are shown.
    pub fn set_display(&mut self, auto_scroll: bool, show_timestamps: bool, show_targets: bool)
        ensures
            final(self).wf() == old(self).wf(),
            final(self).held() == old(self).held(),
            final(self).shown() == old(self).shown(),
            final(self).levels() == old(self).levels(),
            final(self).search() == old(self).search(),
            final(self).display() == (auto_scroll, show_timestamps, show_targets),
    {
        self.state.auto_scroll = auto_scroll;
        self.state.show_timestamps = show_timestamps;
        self.state.show_targets = show_targets;
    }

    /// Drops every entry.
    pub fn clear(&mut self)
        ensures
            final(self).wf(),
            final(self).held().len() == 0,
            final(self).shown().len() == 0,
            final(self).levels() == old(self).levels(),
            final(self).search() == old(self).search(),
    {
        self.entries.clear();
        self.filtered_entries.clear();
        assert(self.held() =~= Seq::<LogEntryView>::empty());
    }

    /// The text of an export: the raw line of each entry shown, each followed
    /// by a line break.
    pub fn export_text(&self) -> (r: String)
        requires
            self.wf(),
        ensures
            r@ == lines_joined(
                self.shown().map_values(|place: usize| self.held()[place as int].raw_line),
            ),
    {
        let ghost held = self.held();
        let ghost raw = self.shown().map_values(|place: usize| held[place as int].raw_line);
        let mut content = String::new();
        let mut i: usize = 0;
        proof {
            assert(raw.take(0) =~= Seq::<Seq<char>>::empty());
        }
        while i < self.filtered_entries.len()
            invariant
                i <= self.filtered_entries@.len(),
                held == self.held(),
                self.wf(),
                raw == self.shown().map_values(|place: usize| held[place as int].raw_line),
                content@ == lines_joined(raw.take(i as int)),
            decreases self.filtered_entries@.len() - i,
        {
            let place = self.filtered_entries[i];
            proof {
                assert(raw.take(i + 1).drop_last() =~= raw.take(i as int));
                assert(raw.take(i + 1).last() == raw[i as int]);
            }
            let total = self.entries.len();
            proof {
                let spots = places(held.len());
                let mask = shown_mask(held, self.levels(), self.search());
                lemma_keep_where_member(spots, mask, i as int);
                let at = choose|at: int|
                    0 <= at < spots.len() && mask[at] && spots[at] == keep_where(
                        spots,
                        mask,
                    )[i as int];
                assert(spots[at] == at);
                assert(place < total);
            }
            content.append(self.entries[place].raw_line.as_str());
            content.append("\n");
            i = i + 1;
        }
        proof {
            assert(raw.take(raw.len() as int) =~= raw);
        }
        content
    }
}

} // verus!
