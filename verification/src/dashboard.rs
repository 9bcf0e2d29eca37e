//! The state of the dashboard and its reactions to keys, to the messages of
//! the data worker and to the clock.
//!
//! Keys arrive as plain values; times are milliseconds on the caller's
//! clock and dates are day numbers, both handed in with each call.

use vstd::prelude::*;
use vstd::string::*;
use crate::api::{ApiCommand, ApiMessage};
use crate::calendar::{number_digits, push_number};
use crate::models::{ClientDto, ProjectDto, UserDto};
use crate::particles::ParticleMode;
use crate::state::{ErrorPopup, LogEntry, LogLevel, Tab, DEFAULT_DISMISS_MS};
use crate::viewport::{NavCommand, Viewport};

verus! {

/// The number of log lines that are kept.
pub const MAX_LOGS: usize = 100;

/// The width in columns that the timeline is taken to have when a key
/// zooms or re-centres it.
pub const ASSUMED_WIDTH: u16 = 80;

/// Columns of a scroll step with the shift key held.
pub const FAST_SCROLL: u32 = 7;

/// Columns of a scroll step.
pub const SLOW_SCROLL: u32 = 1;

/// A key of the keyboard.
#[derive(Debug, Clone, Copy, PartialEq, Eq, Structural)]
pub enum Key {
    Char(char),
    Esc,
    Enter,
    Tab,
    BackTab,
    Left,
    Right,
    Up,
    Down,
    Home,
    /// Any key that the dashboard does not react to.
    Other,
}

/// A key press with the modifiers that were held.
#[derive(Debug, Clone, Copy, PartialEq, Eq, Structural)]
pub struct KeyPress {
    pub key: Key,
    pub control: bool,
    pub shift: bool,
}

/// What a key asks for in every view.
#[derive(Debug, Clone, Copy, PartialEq, Eq, Structural)]
pub enum GlobalAction {
    Quit,
    Help,
    ToggleParticles,
    Refresh,
    NextTab,
    PreviousTab,
}

/// Whether a key closes the error popup.
pub open spec fn dismisses_popup(key: Key) -> bool {
    key == Key::Esc || key == Key::Enter || key == Key::Char(' ')
}

/// Whether a key closes the help overlay.
pub open spec fn closes_help(key: Key) -> bool {
    key == Key::Esc || key == Key::Enter || key == Key::Char('?')
}

/// What a key press asks for in every view, if anything.
pub open spec fn global_action(press: KeyPress) -> Option<GlobalAction> {
    match press.key {
        Key::Char(c) => if c == 'q' || c == 'Q' || (c == 'c' && press.control) {
            Some(GlobalAction::Quit)
        } else if c == '?' {
            Some(GlobalAction::Help)
        } else if c == 'p' {
            Some(GlobalAction::ToggleParticles)
        } else if c == 'r' {
            Some(GlobalAction::Refresh)
        } else {
            None
        },
        Key::Tab => Some(GlobalAction::NextTab),
        Key::BackTab => Some(GlobalAction::PreviousTab),
        _ => None,
    }
}

/// The columns of a scroll step.
pub open spec fn scroll_step(press: KeyPress) -> u32 {
    if press.shift {
        FAST_SCROLL
    } else {
        SLOW_SCROLL
    }
}

/// The navigation command that a key press stands for in the timeline view.
pub open spec fn timeline_command(press: KeyPress) -> Option<NavCommand> {
    match press.key {
        Key::Left => Some(NavCommand::ScrollLeft(scroll_step(press))),
        Key::Right => Some(NavCommand::ScrollRight(scroll_step(press))),
        Key::Down => Some(NavCommand::SelectNext),
        Key::Up => Some(NavCommand::SelectPrevious),
        Key::Home => Some(NavCommand::JumpToStart),
        Key::Char(c) => if c == 'h' {
            Some(NavCommand::ScrollLeft(scroll_step(press)))
        } else if c == 'l' {
            Some(NavCommand::ScrollRight(scroll_step(press)))
        } else if c == 'j' {
            Some(NavCommand::SelectNext)
        } else if c == 'k' {
            Some(NavCommand::SelectPrevious)
        } else if c == '+' || c == '=' {
            Some(NavCommand::ZoomIn)
        } else if c == '-' {
            Some(NavCommand::ZoomOut)
        } else if c == 't' {
            Some(NavCommand::CenterOnToday)
        } else {
            None
        },
        _ => None,
    }
}

/// The selected row of a list of `total` entries after a key.
pub open spec fn list_step(key: Key, selected: usize, total: usize) -> int {
    if total == 0 {
        selected as int
    } else if key == Key::Down || key == Key::Char('j') {
        (selected + 1) % (total as int)
    } else if key == Key::Up || key == Key::Char('k') {
        if selected == 0 {
            total - 1
        } else {
            selected - 1
        }
    } else if key == Key::Char('g') {
        0
    } else if key == Key::Char('G') {
        total - 1
    } else {
        selected as int
    }
}

/// What a key press asks for in every view, if anything.
pub fn global_action_of(press: &KeyPress) -> (r: Option<GlobalAction>)
    ensures
        r == global_action(*press),
{
    match press.key {
        Key::Char(c) => if c == 'q' || c == 'Q' || (c == 'c' && press.control) {
            Some(GlobalAction::Quit)
        } else if c == '?' {
            Some(GlobalAction::Help)
        } else if c == 'p' {
            Some(GlobalAction::ToggleParticles)
        } else if c == 'r' {
            Some(GlobalAction::Refresh)
        } else {
            None
        },
        Key::Tab => Some(GlobalAction::NextTab),
        Key::BackTab => Some(GlobalAction::PreviousTab),
        _ => None,
    }
}

/// The navigation command that a key press stands for in the timeline view.
pub fn timeline_command_of(press: &KeyPress) -> (r: Option<NavCommand>)
    ensures
        r == timeline_command(*press),
{
    let step: u32 = if press.shift {
        FAST_SCROLL
    } else {
        SLOW_SCROLL
    };
    match press.key {
        Key::Left => Some(NavCommand::ScrollLeft(step)),
        Key::Right => Some(NavCommand::ScrollRight(step)),
        Key::Down => Some(NavCommand::SelectNext),
        Key::Up => Some(NavCommand::SelectPrevious),
        Key::Home => Some(NavCommand::JumpToStart),
        Key::Char(c) => if c == 'h' {
            Some(NavCommand::ScrollLeft(step))
        } else if c == 'l' {
            Some(NavCommand::ScrollRight(step))
        } else if c == 'j' {
            Some(NavCommand::SelectNext)
        } else if c == 'k' {
            Some(NavCommand::SelectPrevious)
        } else if c == '+' || c == '=' {
            Some(NavCommand::ZoomIn)
        } else if c == '-' {
            Some(NavCommand::ZoomOut)
        } else if c == 't' {
            Some(NavCommand::CenterOnToday)
        } else {
            None
        },
        _ => None,
    }
}

/// The selected row of a list of `total` entries after a key.
pub fn list_step_of(key: Key, selected: usize, total: usize) -> (r: usize)
    ensures
        r == list_step(key, selected, total),
{
    if total == 0 {
        return selected;
    }
    let down = match key {
        Key::Down => true,
        Key::Char(c) => c == 'j',
        _ => false,
    };
    let up = match key {
        Key::Up => true,
        Key::Char(c) => c == 'k',
        _ => false,
    };
    let first = match key {
        Key::Char(c) => c == 'g',
        _ => false,
    };
    let last = match key {
        Key::Char(c) => c == 'G',
        _ => false,
    };
    if down {
        let next: u128 = (selected as u128 + 1) % (total as u128);
        next as usize
    } else if up {
        if selected == 0 {
            total - 1
        } else {
            selected - 1
        }
    } else if first {
        0
    } else if last {
        total - 1
    } else {
        selected
    }
}

/// The log after a line has been added: where it has grown beyond `max`
/// lines, the oldest line is dropped.
pub open spec fn trimmed(logs: Seq<LogEntry>, max: usize) -> Seq<LogEntry> {
    if logs.len() > max {
        logs.remove(0)
    } else {
        logs
    }
}

/// `after` is `before` with one more line of the given level, time and text.
pub open spec fn is_logged(
    before: Seq<LogEntry>,
    after: Seq<LogEntry>,
    max: usize,
    level: LogLevel,
    now: u64,
    text: Seq<char>,
) -> bool {
    exists|e: LogEntry|
        after == #[trigger] trimmed(before.push(e), max) && e.level == level && e.timestamp == now
            && e.message@ == text
}

/// Whole seconds between `since` and `now`; zero where `now` lies before.
pub open spec fn seconds_between(since: u64, now: u64) -> nat {
    if now >= since {
        ((now - since) / 1000) as nat
    } else {
        0
    }
}

/// The age of the last refresh as text: seconds below a minute, else whole
/// minutes; empty where nothing was refreshed yet.
pub open spec fn refresh_text(last_refresh: Option<u64>, now: u64) -> Seq<char> {
    match last_refresh {
        None => Seq::empty(),
        Some(t) => {
            let secs = seconds_between(t, now);
            if secs < 60 {
                " ("@ + number_digits(secs) + "s ago)"@
            } else {
                " ("@ + number_digits(secs / 60) + "m ago)"@
            }
        },
    }
}

/// The state of the dashboard.
#[derive(Debug)]
pub struct App {
    /// Whether the application should quit.
    pub should_quit: bool,
    /// The view that is shown.
    pub active_tab: Tab,
    pub projects: Vec<ProjectDto>,
    pub clients: Vec<ClientDto>,
    pub users: Vec<UserDto>,
    /// The viewport of the timeline.
    pub timeline_state: Viewport,
    /// The mode of the background animation.
    pub particle_mode: ParticleMode,
    /// The error that is shown, if any.
    pub error_popup: Option<ErrorPopup>,
    /// The log, oldest line first.
    pub logs: Vec<LogEntry>,
    /// The number of log lines that are kept.
    pub max_logs: usize,
    /// The selected row of the client and user lists.
    pub list_selected: usize,
    /// Whether the backend answered the last probe.
    pub api_connected: bool,
    /// When data last arrived.
    pub last_refresh: Option<u64>,
    /// Whether data is being loaded.
    pub is_loading: bool,
    /// Frames drawn so far, wrapping round.
    pub frame_count: u64,
    /// Whether the help overlay is shown.
    pub show_help: bool,
}

impl App {
    /// The viewport is valid.
    pub open spec fn wf(self) -> bool {
        self.timeline_state.wf()
    }

    /// The status bar as text at time `now`.
    pub open spec fn status_line(self, now: u64) -> Seq<char> {
        (if self.api_connected {
            "● Connected"@
        } else {
            "○ Disconnected"@
        }) + (if self.is_loading {
            " [Loading...]"@
        } else {
            Seq::empty()
        }) + refresh_text(self.last_refresh, now) + " | Tab: "@ + self.active_tab.name_spec()
            + " | ?: Help | q: Quit"@
    }

    /// The state in which the dashboard starts at time `now` on the day
    /// `today`: the timeline view centred on today, nothing loaded yet, and
    /// two lines in the log.
    pub fn new(now: u64, today: i32) -> (app: App)
        ensures
            app.wf(),
            !app.should_quit,
            app.active_tab == Tab::Timeline,
            app.projects@.len() == 0,
            app.clients@.len() == 0,
            app.users@.len() == 0,
            app.timeline_state.zoom_days() == 1,
            app.timeline_state.selection() is None,
            app.timeline_state.first_day() == crate::viewport::clamp_scroll(
                Viewport::centered_offset(today as int, 1, ASSUMED_WIDTH as int),
            ),
            app.particle_mode == ParticleMode::DigitalRain,
            app.error_popup is None,
            app.max_logs == MAX_LOGS,
            app.list_selected == 0,
            !app.api_connected,
            app.last_refresh is None,
            app.is_loading,
            app.frame_count == 0,
            !app.show_help,
            app.logs@.len() == 2,
            app.logs@[0].level == LogLevel::Info,
            app.logs@[0].timestamp == now,
            app.logs@[0].message@ == "SWEeM TUI initialized"@,
            app.logs@[1].level == LogLevel::Info,
            app.logs@[1].timestamp == now,
            app.logs@[1].message@ == "Connecting to API..."@,
    {
        let timeline_state = Viewport::new(today, ASSUMED_WIDTH);
        let mut logs: Vec<LogEntry> = Vec::new();
        logs.push(LogEntry::info(String::from_str("SWEeM TUI initialized"), now));
        logs.push(LogEntry::info(String::from_str("Connecting to API..."), now));
        App {
            should_quit: false,
            active_tab: Tab::Timeline,
            projects: Vec::new(),
            clients: Vec::new(),
            users: Vec::new(),
            timeline_state,
            particle_mode: ParticleMode::DigitalRain,
            error_popup: None,
            logs,
            max_logs: MAX_LOGS,
            list_selected: 0,
            api_connected: false,
            last_refresh: None,
            is_loading: true,
            frame_count: 0,
            show_help: false,
        }
    }

    /// Adds a line to the log and drops the oldest line where the log has
    /// grown beyond its limit.
    pub fn log(&mut self, entry: LogEntry)
        ensures
            final(self).logs@ == trimmed(old(self).logs@.push(entry), old(self).max_logs),
            *final(self) == (App { logs: final(self).logs, ..*old(self) }),
    {
        self.logs.push(entry);
        if self.logs.len() > self.max_logs {
            self.logs.remove(0);
        }
    }

    /// Adds a line of the given level and text, written at `now`.
    fn note(&mut self, level: LogLevel, text: String, now: u64)
        ensures
            is_logged(old(self).logs@, final(self).logs@, old(self).max_logs, level, now, text@),
            *final(self) == (App { logs: final(self).logs, ..*old(self) }),
    {
        let entry = LogEntry { timestamp: now, message: text, level };
        self.log(entry);
    }

    /// Shows an error popup at time `now` and writes the error to the log
    /// as title, colon and message.
    pub fn show_error(&mut self, title: String, message: String, now: u64)
        ensures
            is_logged(
                old(self).logs@,
                final(self).logs@,
                old(self).max_logs,
                LogLevel::Error,
                now,
                title@ + ": "@ + message@,
            ),
            final(self).error_popup == Some(
                ErrorPopup {
                    title,
                    message,
                    shown_at: now,
                    auto_dismiss: Some(DEFAULT_DISMISS_MS),
                },
            ),
            *final(self) == (App {
                logs: final(self).logs,
                error_popup: final(self).error_popup,
                ..*old(self)
            }),
    {
        let mut text = String::new();
        text.append(title.as_str());
        text.append(": ");
        text.append(message.as_str());
        assert(text@ =~= title@ + ": "@ + message@);
        self.note(LogLevel::Error, text, now);
        self.error_popup = Some(ErrorPopup::new(title, message, now));
    }

    /// Removes the error popup.
    pub fn dismiss_error(&mut self)
        ensures
            *final(self) == (App { error_popup: None, ..*old(self) }),
    {
        self.error_popup = None;
    }

    /// Takes in a message of the data worker at time `now`.
    ///
    /// Loaded records replace the old ones and are counted in the log; with
    /// new projects loading ends, the time is kept, and the selection of the
    /// timeline is brought into the new list. An error ends loading and is
    /// shown. A change of the connection status is logged.
    pub fn handle_api_message(&mut self, message: ApiMessage, now: u64)
        requires
            old(self).wf(),
        ensures
            final(self).wf(),
            match message {
                ApiMessage::ProjectsLoaded(projects) => {
                    &&& final(self).projects == projects
                    &&& !final(self).is_loading
                    &&& final(self).last_refresh == Some(now)
                    &&& final(self).timeline_state.zoom_days() == old(
                        self,
                    ).timeline_state.zoom_days()
                    &&& final(self).timeline_state.first_day() == old(
                        self,
                    ).timeline_state.first_day()
                    &&& final(self).timeline_state.selection()
                        == crate::viewport::clamped_selection(
                        old(self).timeline_state.selection(),
                        projects@.len() as usize,
                    )
                    &&& is_logged(
                        old(self).logs@,
                        final(self).logs@,
                        old(self).max_logs,
                        LogLevel::Success,
                        now,
                        "Loaded "@ + number_digits(projects@.len()) + " projects"@,
                    )
                    &&& *final(self) == (App {
                        projects: final(self).projects,
                        is_loading: final(self).is_loading,
                        last_refresh: final(self).last_refresh,
                        timeline_state: final(self).timeline_state,
                        logs: final(self).logs,
                        ..*old(self)
                    })
                },
                ApiMessage::ClientsLoaded(clients) => {
                    &&& final(self).clients == clients
                    &&& is_logged(
                        old(self).logs@,
                        final(self).logs@,
                        old(self).max_logs,
                        LogLevel::Success,
                        now,
                        "Loaded "@ + number_digits(clients@.len()) + " clients"@,
                    )
                    &&& *final(self) == (App {
                        clients: final(self).clients,
                        logs: final(self).logs,
                        ..*old(self)
                    })
                },
                ApiMessage::UsersLoaded(users) => {
                    &&& final(self).users == users
                    &&& is_logged(
                        old(self).logs@,
                        final(self).logs@,
                        old(self).max_logs,
                        LogLevel::Success,
                        now,
                        "Loaded "@ + number_digits(users@.len()) + " users"@,
                    )
                    &&& *final(self) == (App {
                        users: final(self).users,
                        logs: final(self).logs,
                        ..*old(self)
                    })
                },
                ApiMessage::Error(error) => {
                    &&& !final(self).is_loading
                    &&& final(self).error_popup matches Some(p) && p.title@ == "API Error"@
                        && p.message == error && p.shown_at == now && p.auto_dismiss == Some(
                        DEFAULT_DISMISS_MS,
                    )
                    &&& is_logged(
                        old(self).logs@,
                        final(self).logs@,
                        old(self).max_logs,
                        LogLevel::Error,
                        now,
                        "API Error"@ + ": "@ + error@,
                    )
                    &&& *final(self) == (App {
                        is_loading: false,
                        error_popup: final(self).error_popup,
                        logs: final(self).logs,
                        ..*old(self)
                    })
                },
                ApiMessage::ConnectionStatus(connected) => {
                    &&& final(self).api_connected == connected
                    &&& *final(self) == (App {
                        api_connected: connected,
                        logs: final(self).logs,
                        ..*old(self)
                    })
                    &&& if connected && !old(self).api_connected {
                        is_logged(
                            old(self).logs@,
                            final(self).logs@,
                            old(self).max_logs,
                            LogLevel::Success,
                            now,
                            "Connected to API"@,
                        )
                    } else if !connected && old(self).api_connected {
                        is_logged(
                            old(self).logs@,
                            final(self).logs@,
                            old(self).max_logs,
                            LogLevel::Warning,
                            now,
                            "Disconnected from API"@,
                        )
                    } else {
                        final(self).logs == old(self).logs
                    }
                },
            },
    {
        match message {
            ApiMessage::ProjectsLoaded(projects) => {
                let count = projects.len();
                self.projects = projects;
                self.timeline_state.clamp_selection(count);
                self.is_loading = false;
                self.last_refresh = Some(now);
                self.note(LogLevel::Success, Self::loaded_text(count, " projects"), now);
            },
            ApiMessage::ClientsLoaded(clients) => {
                let count = clients.len();
                self.clients = clients;
                self.note(LogLevel::Success, Self::loaded_text(count, " clients"), now);
            },
            ApiMessage::UsersLoaded(users) => {
                let count = users.len();
                self.users = users;
                self.note(LogLevel::Success, Self::loaded_text(count, " users"), now);
            },
            ApiMessage::Error(error) => {
                self.is_loading = false;
                self.show_error(String::from_str("API Error"), error, now);
            },
            ApiMessage::ConnectionStatus(connected) => {
                let was_connected = self.api_connected;
                self.api_connected = connected;
                if connected && !was_connected {
                    self.note(LogLevel::Success, String::from_str("Connected to API"), now);
                } else if !connected && was_connected {
                    self.note(LogLevel::Warning, String::from_str("Disconnected from API"), now);
                }
            },
        }
    }

    /// The text of the log line that counts loaded records.
    fn loaded_text(count: usize, what: &str) -> (r: String)
        ensures
            r@ == "Loaded "@ + number_digits(count as nat) + what@,
    {
        let mut text = String::from_str("Loaded ");
        push_number(&mut text, count as u64);
        text.append(what);
        assert(text@ =~= "Loaded "@ + number_digits(count as nat) + what@);
        text
    }

    /// Reacts to a key in the timeline view on the day `today`: the key's
    /// navigation command, if it has one, is carried out on the viewport.
    pub fn handle_timeline_key(&mut self, press: &KeyPress, today: i32)
        requires
            old(self).wf(),
        ensures
            final(self).wf(),
            *final(self) == (App { timeline_state: final(self).timeline_state, ..*old(self) }),
            match timeline_command(*press) {
                Some(command) => final(self).timeline_state.follows(
                    old(self).timeline_state,
                    command,
                    old(self).projects@.len() as usize,
                    today as int,
                    ASSUMED_WIDTH as int,
                ),
                None => final(self).timeline_state == old(self).timeline_state,
            },
    {
        match timeline_command_of(press) {
            Some(command) => {
                self.timeline_state.apply(command, self.projects.len(), today, ASSUMED_WIDTH);
            },
            None => {},
        }
    }

    /// Reacts to a key in a list view of `total` rows.
    pub fn handle_list_key(&mut self, press: &KeyPress, total: usize)
        ensures
            final(self).list_selected == list_step(press.key, old(self).list_selected, total),
            *final(self) == (App { list_selected: final(self).list_selected, ..*old(self) }),
    {
        self.list_selected = list_step_of(press.key, self.list_selected, total);
    }

    /// Reacts to a key at time `now` on the day `today`, and returns the
    /// command for the data worker that the key asks for, if any.
    ///
    /// While the error popup is shown, keys only close it; while the help
    /// overlay is shown, keys only close that. Else a key that means the same
    /// in every view is served, and any other key goes to the view that is
    /// shown.
    pub fn handle_key(&mut self, press: &KeyPress, now: u64, today: i32) -> (r: Option<ApiCommand>)
        requires
            old(self).wf(),
        ensures
            final(self).wf(),
            old(self).error_popup is Some ==> r is None && *final(self) == (App {
                error_popup: if dismisses_popup(press.key) {
                    None
                } else {
                    old(self).error_popup
                },
                ..*old(self)
            }),
            old(self).error_popup is None && old(self).show_help ==> r is None && *final(self)
                == (App { show_help: !closes_help(press.key), ..*old(self) }),
            old(self).error_popup is None && !old(self).show_help ==> match global_action(*press) {
                Some(GlobalAction::Quit) => r == Some(ApiCommand::Shutdown) && *final(self) == (App {
                    should_quit: true,
                    ..*old(self)
                }),
                Some(GlobalAction::Help) => r is None && *final(self) == (App {
                    show_help: true,
                    ..*old(self)
                }),
                Some(GlobalAction::ToggleParticles) => {
                    &&& r is None
                    &&& is_logged(
                        old(self).logs@,
                        final(self).logs@,
                        old(self).max_logs,
                        LogLevel::Info,
                        now,
                        "Particle mode: "@ + old(self).particle_mode.next_spec().name_spec(),
                    )
                    &&& *final(self) == (App {
                        particle_mode: old(self).particle_mode.next_spec(),
                        logs: final(self).logs,
                        ..*old(self)
                    })
                },
                Some(GlobalAction::Refresh) => {
                    &&& r == Some(ApiCommand::RefreshAll)
                    &&& is_logged(
                        old(self).logs@,
                        final(self).logs@,
                        old(self).max_logs,
                        LogLevel::Info,
                        now,
                        "Refreshing data..."@,
                    )
                    &&& *final(self) == (App {
                        is_loading: true,
                        logs: final(self).logs,
                        ..*old(self)
                    })
                },
                Some(GlobalAction::NextTab) => r is None && *final(self) == (App {
                    active_tab: old(self).active_tab.next_spec(),
                    list_selected: 0,
                    ..*old(self)
                }),
                Some(GlobalAction::PreviousTab) => r is None && *final(self) == (App {
                    active_tab: old(self).active_tab.previous_spec(),
                    list_selected: 0,
                    ..*old(self)
                }),
                None => {
                    &&& r is None
                    &&& *final(self) == (App {
                        timeline_state: final(self).timeline_state,
                        list_selected: final(self).list_selected,
                        ..*old(self)
                    })
                    &&& match old(self).active_tab {
                        Tab::Timeline => {
                            &&& final(self).list_selected == old(self).list_selected
                            &&& match timeline_command(*press) {
                                Some(command) => final(self).timeline_state.follows(
                                    old(self).timeline_state,
                                    command,
                                    old(self).projects@.len() as usize,
                                    today as int,
                                    ASSUMED_WIDTH as int,
                                ),
                                None => final(self).timeline_state == old(self).timeline_state,
                            }
                        },
                        Tab::Clients => {
                            &&& final(self).timeline_state == old(self).timeline_state
                            &&& final(self).list_selected == list_step(
                                press.key,
                                old(self).list_selected,
                                old(self).clients@.len() as usize,
                            )
                        },
                        Tab::Users => {
                            &&& final(self).timeline_state == old(self).timeline_state
                            &&& final(self).list_selected == list_step(
                                press.key,
                                old(self).list_selected,
                                old(self).users@.len() as usize,
                            )
                        },
                    }
                },
            },
    {
        if self.error_popup.is_some() {
            let closes = match press.key {
                Key::Esc => true,
                Key::Enter => true,
                Key::Char(c) => c == ' ',
                _ => false,
            };
            if closes {
                self.dismiss_error();
            }
            return None;
        }
        if self.show_help {
            let closes = match press.key {
                Key::Esc => true,
                Key::Enter => true,
                Key::Char(c) => c == '?',
                _ => false,
            };
            if closes {
                self.show_help = false;
            }
            return None;
        }
        match global_action_of(press) {
            Some(GlobalAction::Quit) => {
                self.should_quit = true;
                return Some(ApiCommand::Shutdown);
            },
            Some(GlobalAction::Help) => {
                self.show_help = true;
                return None;
            },
            Some(GlobalAction::ToggleParticles) => {
                self.particle_mode = self.particle_mode.next();
                let mut text = String::from_str("Particle mode: ");
                text.append(self.particle_mode.name());
                self.note(LogLevel::Info, text, now);
                return None;
            },
            Some(GlobalAction::Refresh) => {
                self.is_loading = true;
                self.note(LogLevel::Info, String::from_str("Refreshing data..."), now);
                return Some(ApiCommand::RefreshAll);
            },
            Some(GlobalAction::NextTab) => {
                self.active_tab = self.active_tab.next();
                self.list_selected = 0;
                return None;
            },
            Some(GlobalAction::PreviousTab) => {
                self.active_tab = self.active_tab.previous();
                self.list_selected = 0;
                return None;
            },
            None => {},
        }
        match self.active_tab {
            Tab::Timeline => self.handle_timeline_key(press, today),
            Tab::Clients => {
                let total = self.clients.len();
                self.handle_list_key(press, total)
            },
            Tab::Users => {
                let total = self.users.len();
                self.handle_list_key(press, total)
            },
        }
        None
    }

    /// Advances the frame counter and removes the error popup once its time
    /// is over at `now`.
    pub fn tick(&mut self, now: u64)
        ensures
            final(self).frame_count == if old(self).frame_count == u64::MAX {
                0
            } else {
                old(self).frame_count + 1
            },
            final(self).error_popup == match old(self).error_popup {
                Some(p) => if p.due_at(now) {
                    None
                } else {
                    old(self).error_popup
                },
                None => None,
            },
            *final(self) == (App {
                frame_count: final(self).frame_count,
                error_popup: final(self).error_popup,
                ..*old(self)
            }),
    {
        self.frame_count = if self.frame_count == u64::MAX {
            0
        } else {
            self.frame_count + 1
        };
        let due = match &self.error_popup {
            Some(popup) => popup.should_dismiss(now),
            None => false,
        };
        if due {
            self.error_popup = None;
        }
    }

    /// The text of the status bar at time `now`.
    pub fn status_text(&self, now: u64) -> (r: String)
        ensures
            r@ == self.status_line(now),
    {
        let mut s = String::new();
        if self.api_connected {
            s.append("● Connected");
        } else {
            s.append("○ Disconnected");
        }
        if self.is_loading {
            s.append(" [Loading...]");
        }
        match self.last_refresh {
            Some(t) => {
                let secs: u64 = if now >= t {
                    (now - t) / 1000
                } else {
                    0
                };
                s.append(" (");
                if secs < 60 {
                    push_number(&mut s, secs);
                    s.append("s ago)");
                } else {
                    push_number(&mut s, secs / 60);
                    s.append("m ago)");
                }
            },
            None => {},
        }
        s.append(" | Tab: ");
        s.append(self.active_tab.name());
        s.append(" | ?: Help | q: Quit");
        assert(s@ =~= self.status_line(now));
        s
    }
}

} // verus!
