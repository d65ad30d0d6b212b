//! Logging support: levels, entries, and a bounded in-memory buffer kept
//! for crash diagnostics. The configuration travels in an explicit value —
//! no ambient statics — and the host binary does the actual console and
//! file writes.

use vstd::prelude::*;
use vstd::string::StringExecFns;

verus! {

/// The maximum number of entries the crash-log buffer keeps.
pub const MAX_LOG_BUFFER_SIZE: usize = 1000;

/// Severity of a log entry.
#[derive(Debug, Clone, Copy, PartialEq, Eq, Structural)]
pub enum LogLevel {
    /// Diagnostic detail, shown only in verbose runs.
    Debug,
    /// Fine-grained tracing, shown only in verbose runs.
    Trace,
    /// Ordinary progress.
    Info,
    /// Something suspect but not fatal.
    Warn,
    /// A failure.
    Error,
    /// A completed operation.
    Success,
}

/// The level's name as written to the crash log.
pub open spec fn spec_level_label(level: LogLevel) -> Seq<char> {
    match level {
        LogLevel::Debug => "DEBUG"@,
        LogLevel::Trace => "TRACE"@,
        LogLevel::Info => "INFO"@,
        LogLevel::Warn => "WARN"@,
        LogLevel::Error => "ERROR"@,
        LogLevel::Success => "SUCCESS"@,
    }
}

/// The one-character marker the console line starts with.
pub open spec fn spec_level_prefix(level: LogLevel) -> Seq<char> {
    match level {
        LogLevel::Debug => "*"@,
        LogLevel::Trace => "-"@,
        LogLevel::Info => "+"@,
        LogLevel::Warn => "!"@,
        LogLevel::Error => "#"@,
        LogLevel::Success => "\u{2713}"@,
    }
}

impl LogLevel {
    /// The level's name as written to the crash log.
    pub fn label(&self) -> (r: String)
        ensures
            r@ == spec_level_label(*self),
    {
        match self {
            LogLevel::Debug => "DEBUG".to_owned(),
            LogLevel::Trace => "TRACE".to_owned(),
            LogLevel::Info => "INFO".to_owned(),
            LogLevel::Warn => "WARN".to_owned(),
            LogLevel::Error => "ERROR".to_owned(),
            LogLevel::Success => "SUCCESS".to_owned(),
        }
    }

    /// The one-character marker the console line starts with.
    pub fn console_prefix(&self) -> (r: String)
        ensures
            r@ == spec_level_prefix(*self),
    {
        match self {
            LogLevel::Debug => "*".to_owned(),
            LogLevel::Trace => "-".to_owned(),
            LogLevel::Info => "+".to_owned(),
            LogLevel::Warn => "!".to_owned(),
            LogLevel::Error => "#".to_owned(),
            LogLevel::Success => "\u{2713}".to_owned(),
        }
    }
}

/// Whether an entry of this level is shown on the console: debug and trace
/// only in verbose runs, everything else always.
pub open spec fn spec_should_display(level: LogLevel, verbose: bool) -> bool {
    match level {
        LogLevel::Debug => verbose,
        LogLevel::Trace => verbose,
        _ => true,
    }
}

/// Decide whether an entry of this level is shown on the console.
pub fn should_display(level: LogLevel, verbose: bool) -> (r: bool)
    ensures
        r == spec_should_display(level, verbose),
{
    match level {
        LogLevel::Debug => verbose,
        LogLevel::Trace => verbose,
        _ => true,
    }
}

/// One log entry: when, how severe, where from, and what.
pub struct LogEntry {
    /// The timestamp the host rendered when the entry was made.
    pub timestamp: String,
    /// The entry's severity.
    pub level: LogLevel,
    /// The module or component the entry came from.
    pub target: String,
    /// The message.
    pub message: String,
}

impl LogEntry {
    /// Build an entry from its parts.
    pub fn new(timestamp: &str, level: LogLevel, target: &str, message: &str) -> (r: LogEntry)
        ensures
            r.timestamp@ == timestamp@,
            r.level == level,
            r.target@ == target@,
            r.message@ == message@,
    {
        LogEntry {
            timestamp: timestamp.to_owned(),
            level,
            target: target.to_owned(),
            message: message.to_owned(),
        }
    }

    /// Build a success entry.
    pub fn new_success(timestamp: &str, target: &str, message: &str) -> (r: LogEntry)
        ensures
            r.timestamp@ == timestamp@,
            r.level == LogLevel::Success,
            r.target@ == target@,
            r.message@ == message@,
    {
        LogEntry::new(timestamp, LogLevel::Success, target, message)
    }

    /// The line this entry contributes to the crash log.
    pub open spec fn spec_file_line(self) -> Seq<char> {
        "["@ + self.timestamp@ + "] ["@ + spec_level_label(self.level) + "] ["@ + self.target@
            + "] "@ + self.message@ + "\n"@
    }

    /// Render the entry for the crash-log file:
    /// `[timestamp] [LEVEL] [target] message` and a newline.
    pub fn format_for_file(&self) -> (r: String)
        ensures
            r@ == self.spec_file_line(),
    {
        "[".to_owned().concat(self.timestamp.as_str()).concat("] [").concat(
            self.level.label().as_str(),
        ).concat("] [").concat(self.target.as_str()).concat("] ").concat(self.message.as_str())
            .concat("\n")
    }

    /// The console line for this entry: its level marker, a space, and the
    /// message.
    pub fn format_for_console(&self) -> (r: String)
        ensures
            r@ == spec_level_prefix(self.level) + " "@ + self.message@,
    {
        self.level.console_prefix().concat(" ").concat(self.message.as_str())
    }
}

impl Clone for LogEntry {
    /// Field-for-field copy.
    fn clone(&self) -> (r: LogEntry)
        ensures
            r.timestamp@ == self.timestamp@,
            r.level == self.level,
            r.target@ == self.target@,
            r.message@ == self.message@,
    {
        LogEntry {
            timestamp: self.timestamp.clone(),
            level: self.level,
            target: self.target.clone(),
            message: self.message.clone(),
        }
    }
}

/// A bounded buffer of the most recent log entries, kept so a crash report
/// can show what led up to the failure. When full, the oldest entry leaves.
pub struct LogBuffer {
    entries: Vec<LogEntry>,
    capacity: usize,
}

impl LogBuffer {
    /// The buffered entries, oldest first.
    pub closed spec fn entries_view(self) -> Seq<LogEntry> {
        self.entries@
    }

    /// The most entries the buffer keeps.
    pub closed spec fn capacity_view(self) -> int {
        self.capacity as int
    }

    /// The buffer never holds more than its capacity.
    pub open spec fn wf(self) -> bool {
        self.entries_view().len() <= self.capacity_view()
    }

    /// An empty buffer bounded at `capacity` entries.
    pub fn new(capacity: usize) -> (r: LogBuffer)
        ensures
            r.wf(),
            r.entries_view().len() == 0,
            r.capacity_view() == capacity as int,
    {
        LogBuffer { entries: Vec::new(), capacity }
    }

    /// How many entries are buffered.
    pub fn len(&self) -> (r: usize)
        ensures
            r == self.entries_view().len(),
    {
        self.entries.len()
    }

    /// The entry at `i`, oldest first.
    pub fn entry(&self, i: usize) -> (r: &LogEntry)
        requires
            i < self.entries_view().len(),
        ensures
            *r == self.entries_view()[i as int],
    {
        &self.entries[i]
    }

    /// Add an entry; when the buffer is full, the oldest leaves first.
    pub fn push(&mut self, entry: LogEntry)
        requires
            old(self).wf(),
            old(self).capacity_view() > 0,
        ensures
            final(self).wf(),
            final(self).capacity_view() == old(self).capacity_view(),
            old(self).entries_view().len() < old(self).capacity_view()
                ==> final(self).entries_view() == old(self).entries_view().push(entry),
            old(self).entries_view().len() == old(self).capacity_view()
                ==> final(self).entries_view() == old(self).entries_view().drop_first().push(entry),
    {
        if self.entries.len() >= self.capacity {
            self.entries.remove(0);
        }
        self.entries.push(entry);
        proof {
            assert(final(self).entries_view() == old(self).entries_view().drop_first().push(entry)
                || final(self).entries_view() == old(self).entries_view().push(entry)) by {
                if old(self).entries_view().len() >= old(self).capacity_view() {
                    assert(old(self).entries_view().remove(0) =~= old(
                        self,
                    ).entries_view().drop_first());
                }
            }
        }
    }
}

/// The logger: its explicit configuration and the crash-log buffer. The
/// host binary hands entries in and prints the console line this logger
/// decides to show.
pub struct Logger {
    /// Whether debug and trace entries are shown.
    pub verbose: bool,
    /// The crash-log buffer.
    pub buffer: LogBuffer,
}

impl Logger {
    /// The buffered entries, oldest first.
    pub open spec fn buffered(self) -> Seq<LogEntry> {
        self.buffer.entries_view()
    }

    /// The logger's buffer is well-formed and bounded at the fixed size.
    pub open spec fn wf(self) -> bool {
        self.buffer.wf() && self.buffer.capacity_view() == MAX_LOG_BUFFER_SIZE as int
    }

    /// A logger with the given verbosity and an empty buffer.
    pub fn new(verbose: bool) -> (r: Logger)
        ensures
            r.wf(),
            r.verbose == verbose,
            r.buffered().len() == 0,
    {
        Logger { verbose, buffer: LogBuffer::new(MAX_LOG_BUFFER_SIZE) }
    }

    /// Switch verbose mode.
    pub fn set_verbose(&mut self, verbose: bool)
        requires
            old(self).wf(),
        ensures
            final(self).wf(),
            final(self).verbose == verbose,
            final(self).buffered() == old(self).buffered(),
    {
        self.verbose = verbose;
    }

    /// Whether debug and trace entries are shown.
    pub fn is_verbose(&self) -> (r: bool)
        ensures
            r == self.verbose,
    {
        self.verbose
    }

    /// Record an entry: always buffered for crash logging — the oldest entry
    /// leaving when the buffer is full — and handed back as a console line
    /// exactly when its level is displayed under the current verbosity.
    pub fn log(&mut self, entry: LogEntry) -> (display: Option<String>)
        requires
            old(self).wf(),
        ensures
            final(self).wf(),
            final(self).verbose == old(self).verbose,
            old(self).buffered().len() < MAX_LOG_BUFFER_SIZE
                ==> final(self).buffered() == old(self).buffered().push(entry),
            old(self).buffered().len() == MAX_LOG_BUFFER_SIZE
                ==> final(self).buffered() == old(self).buffered().drop_first().push(entry),
            display is Some <==> spec_should_display(entry.level, old(self).verbose),
            display matches Some(line) ==> line@ == spec_level_prefix(entry.level) + " "@
                + entry.message@,
    {
        let line = if should_display(entry.level, self.verbose) {
            Some(entry.format_for_console())
        } else {
            None
        };
        self.buffer.push(entry);
        line
    }

    /// How many entries the crash-log buffer holds.
    pub fn buffered_len(&self) -> (r: usize)
        ensures
            r == self.buffered().len(),
    {
        self.buffer.len()
    }

    /// The buffered entry at `i`, oldest first.
    pub fn buffered_entry(&self, i: usize) -> (r: &LogEntry)
        requires
            i < self.buffered().len(),
        ensures
            *r == self.buffered()[i as int],
    {
        self.buffer.entry(i)
    }
}

} // verus!
