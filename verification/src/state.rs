//! Small state types of the dashboard: tabs, the error popup and the log.

use vstd::prelude::*;

verus! {

/// Milliseconds after which an error popup dismisses itself by default.
pub const DEFAULT_DISMISS_MS: u64 = 5000;

/// The view that is shown.
#[derive(Debug, Clone, Copy, PartialEq, Eq, Structural)]
pub enum Tab {
    /// Client list.
    Clients,
    /// Project timeline; the view the dashboard starts with.
    Timeline,
    /// User list.
    Users,
}

impl Tab {
    /// The tab to the right, wrapping round.
    pub open spec fn next_spec(self) -> Tab {
        match self {
            Tab::Clients => Tab::Timeline,
            Tab::Timeline => Tab::Users,
            Tab::Users => Tab::Clients,
        }
    }

    /// The tab to the left, wrapping round.
    pub open spec fn previous_spec(self) -> Tab {
        match self {
            Tab::Clients => Tab::Users,
            Tab::Timeline => Tab::Clients,
            Tab::Users => Tab::Timeline,
        }
    }

    /// The title of the tab.
    pub open spec fn name_spec(self) -> Seq<char> {
        match self {
            Tab::Clients => "Clients"@,
            Tab::Timeline => "Timeline"@,
            Tab::Users => "Users"@,
        }
    }

    /// The position of the tab in the tab bar, from the left.
    pub fn index(&self) -> (r: usize)
        ensures
            r == match *self {
                Tab::Clients => 0usize,
                Tab::Timeline => 1usize,
                Tab::Users => 2usize,
            },
    {
        match self {
            Tab::Clients => 0,
            Tab::Timeline => 1,
            Tab::Users => 2,
        }
    }

    /// Moves to the next tab.
    pub fn next(&self) -> (r: Tab)
        ensures
            r == self.next_spec(),
    {
        match self {
            Tab::Clients => Tab::Timeline,
            Tab::Timeline => Tab::Users,
            Tab::Users => Tab::Clients,
        }
    }

    /// Moves to the previous tab.
    pub fn previous(&self) -> (r: Tab)
        ensures
            r == self.previous_spec(),
    {
        match self {
            Tab::Clients => Tab::Users,
            Tab::Timeline => Tab::Clients,
            Tab::Users => Tab::Timeline,
        }
    }

    /// The title of the tab.
    pub fn name(&self) -> (r: &'static str)
        ensures
            r@ == self.name_spec(),
    {
        match self {
            Tab::Clients => "Clients",
            Tab::Timeline => "Timeline",
            Tab::Users => "Users",
        }
    }
}

impl Default for Tab {
    fn default() -> (r: Tab)
        ensures
            r == Tab::Timeline,
    {
        Tab::Timeline
    }
}

/// Moving right and then left, or left and then right, changes nothing.
pub proof fn lemma_tab_next_previous(t: Tab)
    ensures
        t.next_spec().previous_spec() == t,
        t.previous_spec().next_spec() == t,
{
}

/// An error shown on top of the dashboard. Times are milliseconds on the
/// caller's monotonic clock.
#[derive(Debug, Clone)]
pub struct ErrorPopup {
    pub title: String,
    pub message: String,
    /// When the popup was shown.
    pub shown_at: u64,
    /// How long it stays; `None` keeps it until it is dismissed by hand.
    pub auto_dismiss: Option<u64>,
}

impl ErrorPopup {
    /// Whether the popup is due to disappear at time `now`: it has a limit,
    /// and strictly more than that limit has passed since it was shown.
    pub open spec fn due_at(self, now: u64) -> bool {
        match self.auto_dismiss {
            Some(limit) => now > self.shown_at && now - self.shown_at > limit,
            None => false,
        }
    }

    /// A popup shown at `now` that dismisses itself after the default time.
    pub fn new(title: String, message: String, now: u64) -> (r: ErrorPopup)
        ensures
            r.title == title,
            r.message == message,
            r.shown_at == now,
            r.auto_dismiss == Some(DEFAULT_DISMISS_MS),
    {
        ErrorPopup { title, message, shown_at: now, auto_dismiss: Some(DEFAULT_DISMISS_MS) }
    }

    /// Whether the popup should be removed at time `now`.
    pub fn should_dismiss(&self, now: u64) -> (r: bool)
        ensures
            r == self.due_at(now),
    {
        match self.auto_dismiss {
            Some(limit) => now > self.shown_at && now - self.shown_at > limit,
            None => false,
        }
    }
}

/// Severity of a log line.
#[derive(Debug, Clone, Copy, PartialEq, Eq, Structural)]
pub enum LogLevel {
    Info,
    Success,
    Warning,
    Error,
}

impl LogLevel {
    /// The sign that stands before a line of this level.
    pub fn symbol(&self) -> (r: char)
        ensures
            r == match *self {
                LogLevel::Info => 'ℹ',
                LogLevel::Success => '✓',
                LogLevel::Warning => '⚠',
                LogLevel::Error => '✗',
            },
    {
        match self {
            LogLevel::Info => 'ℹ',
            LogLevel::Success => '✓',
            LogLevel::Warning => '⚠',
            LogLevel::Error => '✗',
        }
    }
}

/// The number of log lines that fit into a log panel `height` rows high,
/// whose border takes two rows.
pub fn visible_log_lines(height: u16, logged: usize) -> (r: usize)
    ensures
        r == if height < 2 {
            0
        } else if logged <= height - 2 {
            logged as int
        } else {
            height - 2
        },
{
    let room: usize = if height < 2 {
        0
    } else {
        (height - 2) as usize
    };
    if logged <= room {
        logged
    } else {
        room
    }
}

/// One line of the message area.
#[derive(Debug, Clone)]
pub struct LogEntry {
    /// When the line was written, in milliseconds on the caller's clock.
    pub timestamp: u64,
    pub message: String,
    pub level: LogLevel,
}

impl LogEntry {
    /// An informational line written at `now`.
    pub fn info(message: String, now: u64) -> (r: LogEntry)
        ensures
            r.timestamp == now,
            r.message == message,
            r.level == LogLevel::Info,
    {
        LogEntry { timestamp: now, message, level: LogLevel::Info }
    }

    /// A line that reports a success, written at `now`.
    pub fn success(message: String, now: u64) -> (r: LogEntry)
        ensures
            r.timestamp == now,
            r.message == message,
            r.level == LogLevel::Success,
    {
        LogEntry { timestamp: now, message, level: LogLevel::Success }
    }

    /// A warning written at `now`.
    pub fn warning(message: String, now: u64) -> (r: LogEntry)
        ensures
            r.timestamp == now,
            r.message == message,
            r.level == LogLevel::Warning,
    {
        LogEntry { timestamp: now, message, level: LogLevel::Warning }
    }

    /// An error line written at `now`.
    pub fn error(message: String, now: u64) -> (r: LogEntry)
        ensures
            r.timestamp == now,
            r.message == message,
            r.level == LogLevel::Error,
    {
        LogEntry { timestamp: now, message, level: LogLevel::Error }
    }
}

} // verus!
