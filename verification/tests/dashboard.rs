use sweem_tui::api::{page_url, ApiCommand, ApiMessage, Endpoint, PageWalk, FIRST_PAGE, PAGE_SIZE};
use sweem_tui::calendar::day_number;
use sweem_tui::dashboard::{
    global_action_of, list_step_of, timeline_command_of, App, GlobalAction, Key, KeyPress,
    ASSUMED_WIDTH, MAX_LOGS,
};
use sweem_tui::models::{intervals_of, ClientDto, PaginatedResult, ProjectDto, Role, UserDto};
use sweem_tui::particles::{rain_spawn_count, star_spawn_count, ParticleMode, ParticleSystem};
use sweem_tui::render::{centered_rect, error_popup_area, help_area, Area};
use sweem_tui::state::{visible_log_lines, LogEntry, LogLevel, Tab};
use sweem_tui::viewport::NavCommand;

fn press(key: Key) -> KeyPress {
    KeyPress { key, control: false, shift: false }
}

fn ch(c: char) -> KeyPress {
    press(Key::Char(c))
}

fn today() -> i32 {
    day_number(2024, 3, 15).unwrap()
}

fn project(id: u128, from: u32, to: u32) -> ProjectDto {
    ProjectDto {
        id,
        client_id: 0,
        name: Some(format!("Job {}", id)),
        start_date: day_number(2024, 3, from).unwrap(),
        planned_end_date: day_number(2024, 3, to).unwrap(),
        actual_end_date: None,
        manager_id: 0,
    }
}

fn client(id: u128) -> ClientDto {
    ClientDto { id, name: None, address: None, projects_total: 0, projects_completed: 0 }
}

fn user(id: u128) -> UserDto {
    UserDto { id, name: None, login: None, role: Role::User }
}

fn last_log(app: &App) -> (LogLevel, &str, u64) {
    let e = app.logs.last().unwrap();
    (e.level, e.message.as_str(), e.timestamp)
}

#[test]
fn new_dashboard() {
    let app = App::new(12, today());
    assert!(!app.should_quit);
    assert_eq!(app.active_tab, Tab::Timeline);
    assert!(app.projects.is_empty() && app.clients.is_empty() && app.users.is_empty());
    assert_eq!(app.timeline_state.zoom(), 1);
    assert_eq!(app.timeline_state.selected_index(), None);
    assert_eq!(app.timeline_state.date_to_column(today()), 40);
    assert_eq!(ASSUMED_WIDTH, 80);
    assert_eq!(app.particle_mode, ParticleMode::DigitalRain);
    assert!(app.error_popup.is_none());
    assert_eq!(app.max_logs, 100);
    assert_eq!(MAX_LOGS, 100);
    assert_eq!(app.list_selected, 0);
    assert!(!app.api_connected);
    assert_eq!(app.last_refresh, None);
    assert!(app.is_loading);
    assert_eq!(app.frame_count, 0);
    assert!(!app.show_help);
    assert_eq!(app.logs.len(), 2);
    assert_eq!(app.logs[0].message, "SWEeM TUI initialized");
    assert_eq!(app.logs[0].level, LogLevel::Info);
    assert_eq!(app.logs[0].timestamp, 12);
    assert_eq!(app.logs[1].message, "Connecting to API...");
}

#[test]
fn log_keeps_the_newest_lines() {
    let mut app = App::new(0, today());
    for i in 0..150u64 {
        app.log(LogEntry::info(format!("line {}", i), i));
    }
    assert_eq!(app.logs.len(), 100);
    assert_eq!(app.logs[0].message, "line 50");
    assert_eq!(app.logs[99].message, "line 149");
}

#[test]
fn errors_are_shown_and_logged() {
    let mut app = App::new(0, today());
    app.show_error("Oops".to_string(), "it broke".to_string(), 77);
    let popup = app.error_popup.clone().unwrap();
    assert_eq!(popup.title, "Oops");
    assert_eq!(popup.message, "it broke");
    assert_eq!(popup.shown_at, 77);
    assert_eq!(popup.auto_dismiss, Some(5000));
    assert_eq!(last_log(&app), (LogLevel::Error, "Oops: it broke", 77));
    app.tick(5077);
    assert!(app.error_popup.is_some());
    app.tick(5078);
    assert!(app.error_popup.is_none());
    assert_eq!(app.frame_count, 2);
    app.show_error("a".to_string(), "b".to_string(), 1);
    app.dismiss_error();
    assert!(app.error_popup.is_none());
    app.frame_count = u64::MAX;
    app.tick(0);
    assert_eq!(app.frame_count, 0);
}

#[test]
fn messages_of_the_worker() {
    let mut app = App::new(0, today());
    app.handle_key(&ch('k'), 1, today());
    assert_eq!(app.timeline_state.selected_index(), None);
    app.handle_api_message(
        ApiMessage::ProjectsLoaded(vec![project(1, 1, 5), project(2, 3, 9), project(3, 6, 7)]),
        40,
    );
    assert_eq!(app.projects.len(), 3);
    assert!(!app.is_loading);
    assert_eq!(app.last_refresh, Some(40));
    assert_eq!(last_log(&app), (LogLevel::Success, "Loaded 3 projects", 40));
    app.handle_key(&ch('k'), 41, today());
    assert_eq!(app.timeline_state.selected_index(), Some(2));
    app.handle_api_message(ApiMessage::ProjectsLoaded(vec![project(1, 1, 5)]), 50);
    assert_eq!(app.timeline_state.selected_index(), Some(0));
    app.handle_api_message(ApiMessage::ProjectsLoaded(Vec::new()), 60);
    assert_eq!(app.timeline_state.selected_index(), None);
    assert_eq!(last_log(&app), (LogLevel::Success, "Loaded 0 projects", 60));
    app.handle_api_message(ApiMessage::ClientsLoaded((0..12).map(client).collect()), 61);
    assert_eq!(app.clients.len(), 12);
    assert_eq!(last_log(&app), (LogLevel::Success, "Loaded 12 clients", 61));
    app.handle_api_message(ApiMessage::UsersLoaded((0..105).map(user).collect()), 62);
    assert_eq!(app.users.len(), 105);
    assert_eq!(last_log(&app), (LogLevel::Success, "Loaded 105 users", 62));
    let lines = app.logs.len();
    app.handle_api_message(ApiMessage::ConnectionStatus(false), 63);
    assert_eq!(app.logs.len(), lines);
    app.handle_api_message(ApiMessage::ConnectionStatus(true), 64);
    assert!(app.api_connected);
    assert_eq!(last_log(&app), (LogLevel::Success, "Connected to API", 64));
    app.handle_api_message(ApiMessage::ConnectionStatus(true), 65);
    assert_eq!(app.logs.len(), lines + 1);
    app.handle_api_message(ApiMessage::ConnectionStatus(false), 66);
    assert!(!app.api_connected);
    assert_eq!(last_log(&app), (LogLevel::Warning, "Disconnected from API", 66));
    app.is_loading = true;
    app.handle_api_message(ApiMessage::Error("no route".to_string()), 70);
    assert!(!app.is_loading);
    assert_eq!(app.error_popup.as_ref().unwrap().title, "API Error");
    assert_eq!(app.error_popup.as_ref().unwrap().message, "no route");
    assert_eq!(last_log(&app), (LogLevel::Error, "API Error: no route", 70));
}

#[test]
fn keys_while_an_overlay_is_open() {
    let mut app = App::new(0, today());
    app.show_error("a".to_string(), "b".to_string(), 1);
    assert_eq!(app.handle_key(&ch('q'), 2, today()), None);
    assert!(!app.should_quit);
    assert!(app.error_popup.is_some());
    assert_eq!(app.handle_key(&ch(' '), 2, today()), None);
    assert!(app.error_popup.is_none());
    app.show_error("a".to_string(), "b".to_string(), 1);
    app.handle_key(&press(Key::Esc), 2, today());
    assert!(app.error_popup.is_none());
    app.show_error("a".to_string(), "b".to_string(), 1);
    app.handle_key(&press(Key::Enter), 2, today());
    assert!(app.error_popup.is_none());

    assert_eq!(app.handle_key(&ch('?'), 3, today()), None);
    assert!(app.show_help);
    assert_eq!(app.handle_key(&ch('q'), 3, today()), None);
    assert!(app.show_help && !app.should_quit);
    app.handle_key(&ch('?'), 3, today());
    assert!(!app.show_help);
    app.handle_key(&ch('?'), 3, today());
    app.handle_key(&press(Key::Esc), 3, today());
    assert!(!app.show_help);
    app.handle_key(&ch('?'), 3, today());
    app.handle_key(&press(Key::Enter), 3, today());
    assert!(!app.show_help);
}

#[test]
fn keys_of_every_view() {
    let mut app = App::new(0, today());
    assert_eq!(app.handle_key(&ch('r'), 5, today()), Some(ApiCommand::RefreshAll));
    assert!(app.is_loading);
    assert_eq!(last_log(&app), (LogLevel::Info, "Refreshing data...", 5));
    assert_eq!(app.handle_key(&ch('p'), 6, today()), None);
    assert_eq!(app.particle_mode, ParticleMode::Starfield);
    assert_eq!(last_log(&app), (LogLevel::Info, "Particle mode: Starfield", 6));
    app.handle_key(&ch('p'), 7, today());
    assert_eq!(last_log(&app), (LogLevel::Info, "Particle mode: None", 7));
    app.handle_key(&ch('p'), 8, today());
    assert_eq!(last_log(&app), (LogLevel::Info, "Particle mode: Digital Rain", 8));
    app.list_selected = 4;
    assert_eq!(app.handle_key(&press(Key::Tab), 9, today()), None);
    assert_eq!((app.active_tab, app.list_selected), (Tab::Users, 0));
    app.handle_key(&press(Key::Tab), 9, today());
    assert_eq!(app.active_tab, Tab::Clients);
    app.handle_key(&press(Key::BackTab), 9, today());
    assert_eq!(app.active_tab, Tab::Users);
    assert_eq!(app.handle_key(&ch('c'), 9, today()), None);
    assert!(!app.should_quit);
    let ctrl_c = KeyPress { key: Key::Char('c'), control: true, shift: false };
    assert_eq!(app.handle_key(&ctrl_c, 9, today()), Some(ApiCommand::Shutdown));
    assert!(app.should_quit);
    let mut app = App::new(0, today());
    assert_eq!(app.handle_key(&ch('Q'), 9, today()), Some(ApiCommand::Shutdown));
    assert!(app.should_quit);
    assert_eq!(global_action_of(&ch('q')), Some(GlobalAction::Quit));
    assert_eq!(global_action_of(&ch('x')), None);
    assert_eq!(global_action_of(&press(Key::Left)), None);
}

#[test]
fn keys_of_the_timeline() {
    let mut app = App::new(0, today());
    app.handle_api_message(
        ApiMessage::ProjectsLoaded(vec![project(1, 1, 5), project(2, 3, 9), project(3, 6, 7)]),
        1,
    );
    let start = app.timeline_state.scroll_offset();
    assert_eq!(start, today() - 40);
    app.handle_key(&press(Key::Right), 2, today());
    assert_eq!(app.timeline_state.scroll_offset(), start + 1);
    app.handle_key(&KeyPress { key: Key::Char('h'), control: false, shift: true }, 2, today());
    assert_eq!(app.timeline_state.scroll_offset(), start - 6);
    app.handle_key(&ch('-'), 2, today());
    assert_eq!(app.timeline_state.zoom(), 2);
    assert_eq!(app.timeline_state.scroll_offset(), start - 6 + 40 - 80);
    app.handle_key(&ch('+'), 2, today());
    app.handle_key(&ch('='), 2, today());
    assert_eq!(app.timeline_state.zoom(), 1);
    assert_eq!(app.timeline_state.scroll_offset(), start - 6);
    app.handle_key(&ch('j'), 2, today());
    app.handle_key(&press(Key::Down), 2, today());
    assert_eq!(app.timeline_state.selected_index(), Some(1));
    app.handle_key(&press(Key::Up), 2, today());
    app.handle_key(&ch('k'), 2, today());
    assert_eq!(app.timeline_state.selected_index(), Some(2));
    app.handle_key(&press(Key::Home), 2, today());
    assert_eq!(app.timeline_state.scroll_offset(), 0);
    app.handle_key(&ch('t'), 2, today());
    assert_eq!(app.timeline_state.scroll_offset(), today() - 40);
    app.handle_key(&ch('g'), 2, today());
    assert_eq!(app.list_selected, 0);
    assert_eq!(timeline_command_of(&ch('l')), Some(NavCommand::ScrollRight(1)));
    assert_eq!(
        timeline_command_of(&KeyPress { key: Key::Left, control: false, shift: true }),
        Some(NavCommand::ScrollLeft(7))
    );
    assert_eq!(timeline_command_of(&ch('x')), None);
    assert_eq!(timeline_command_of(&press(Key::Other)), None);
    let list = intervals_of(&app.projects);
    assert_eq!(list.len(), 3);
    assert_eq!(list[1].label, "Job 2");
    assert_eq!(list[1].start, day_number(2024, 3, 3).unwrap());
}

#[test]
fn keys_of_the_lists() {
    let mut app = App::new(0, today());
    app.handle_api_message(ApiMessage::ClientsLoaded((0..3).map(client).collect()), 1);
    app.handle_key(&press(Key::BackTab), 2, today());
    assert_eq!(app.active_tab, Tab::Clients);
    let before = app.timeline_state;
    app.handle_key(&ch('j'), 2, today());
    app.handle_key(&press(Key::Down), 2, today());
    assert_eq!(app.list_selected, 2);
    app.handle_key(&ch('j'), 2, today());
    assert_eq!(app.list_selected, 0);
    app.handle_key(&ch('k'), 2, today());
    assert_eq!(app.list_selected, 2);
    app.handle_key(&press(Key::Up), 2, today());
    assert_eq!(app.list_selected, 1);
    app.handle_key(&ch('G'), 2, today());
    assert_eq!(app.list_selected, 2);
    app.handle_key(&ch('g'), 2, today());
    assert_eq!(app.list_selected, 0);
    app.handle_key(&press(Key::Left), 2, today());
    assert_eq!(app.timeline_state, before);
    app.handle_key(&press(Key::BackTab), 2, today());
    assert_eq!(app.active_tab, Tab::Users);
    app.list_selected = 5;
    app.handle_key(&ch('j'), 2, today());
    assert_eq!(app.list_selected, 5);
    assert_eq!(list_step_of(Key::Down, usize::MAX, 7), ((usize::MAX as u128 + 1) % 7) as usize);
    assert_eq!(list_step_of(Key::Down, 9, 4), 2);
    assert_eq!(list_step_of(Key::Up, 9, 4), 8);
    assert_eq!(list_step_of(Key::Other, 9, 4), 9);
}

#[test]
fn status_bar_text() {
    let mut app = App::new(0, today());
    assert_eq!(app.status_text(0), "○ Disconnected [Loading...] | Tab: Timeline | ?: Help | q: Quit");
    app.api_connected = true;
    app.is_loading = false;
    app.last_refresh = Some(1_000);
    app.active_tab = Tab::Users;
    assert_eq!(app.status_text(60_999), "● Connected (59s ago) | Tab: Users | ?: Help | q: Quit");
    assert_eq!(app.status_text(61_000), "● Connected (1m ago) | Tab: Users | ?: Help | q: Quit");
    assert_eq!(app.status_text(500), "● Connected (0s ago) | Tab: Users | ?: Help | q: Quit");
    assert_eq!(
        app.status_text(7_201_000),
        "● Connected (120m ago) | Tab: Users | ?: Help | q: Quit"
    );
}

#[test]
fn page_addresses() {
    assert_eq!(
        page_url("http://localhost:5094", Endpoint::Projects, 1, 100),
        "http://localhost:5094/projects?page=1&pageSize=100"
    );
    assert_eq!(page_url("x", Endpoint::Clients, 12, 0), "x/clients?page=12&pageSize=0");
    assert_eq!(
        page_url("", Endpoint::Users, -3, i32::MIN),
        "/users?page=-3&pageSize=-2147483648"
    );
    assert_eq!(page_url("b", Endpoint::Users, i32::MAX, 7), "b/users?page=2147483647&pageSize=7");
    assert_eq!((FIRST_PAGE, PAGE_SIZE), (1, 100));
}

fn page(items: Option<Vec<i32>>, has_next: bool) -> PaginatedResult<i32> {
    PaginatedResult {
        items,
        page: 0,
        page_size: 0,
        total_count: 0,
        total_pages: 0,
        has_previous: false,
        has_next,
    }
}

#[test]
fn pages_are_gathered_in_order() {
    let mut walk: PageWalk<i32> = PageWalk::new();
    assert_eq!(walk.page, 1);
    assert_eq!(walk.absorb(page(Some(vec![1, 2]), true)), Some(2));
    assert_eq!(walk.absorb(page(None, true)), Some(3));
    assert_eq!(walk.absorb(page(Some(vec![3]), false)), None);
    assert_eq!(walk.items, vec![1, 2, 3]);
    assert_eq!(walk.page, 3);
    walk.page = i32::MAX;
    assert_eq!(walk.absorb(page(Some(vec![4]), true)), None);
    assert_eq!(walk.items, vec![1, 2, 3, 4]);
}

#[test]
fn spawn_counts() {
    assert_eq!(rain_spawn_count(3, 10, 80, 2), 2);
    assert_eq!(rain_spawn_count(4, 10, 80, 2), 0);
    assert_eq!(rain_spawn_count(0, 79, 80, 3), 1);
    assert_eq!(rain_spawn_count(6, 80, 80, 3), 0);
    assert_eq!(rain_spawn_count(6, 90, 80, 3), 0);
    assert_eq!(star_spawn_count(0, 80), 40);
    assert_eq!(star_spawn_count(39, 81), 1);
    assert_eq!(star_spawn_count(40, 80), 0);
    assert_eq!(star_spawn_count(70, 80), 0);
}

#[test]
fn overlay_rectangles() {
    let screen = Area { x: 0, y: 0, width: 120, height: 40 };
    assert_eq!(centered_rect(50, 18, screen), Area { x: 35, y: 11, width: 50, height: 18 });
    assert_eq!(help_area(screen), Area { x: 35, y: 11, width: 50, height: 18 });
    assert_eq!(error_popup_area(screen), Area { x: 30, y: 16, width: 60, height: 7 });
    let small = Area { x: 2, y: 3, width: 40, height: 5 };
    assert_eq!(help_area(small), Area { x: 2, y: 3, width: 40, height: 5 });
    assert_eq!(error_popup_area(small), Area { x: 7, y: 3, width: 30, height: 5 });
    let mid = Area { x: 0, y: 0, width: 80, height: 24 };
    assert_eq!(error_popup_area(mid), Area { x: 16, y: 8, width: 48, height: 7 });
    let wide = Area { x: 0, y: 0, width: u16::MAX, height: u16::MAX };
    assert_eq!(error_popup_area(wide).width, 60);
    let none = Area { x: 0, y: 0, width: 0, height: 0 };
    assert_eq!(help_area(none), none);
}

#[test]
fn tab_positions_and_log_signs() {
    assert_eq!(Tab::Clients.index(), 0);
    assert_eq!(Tab::Timeline.index(), 1);
    assert_eq!(Tab::Users.index(), 2);
    assert_eq!(LogLevel::Info.symbol(), 'ℹ');
    assert_eq!(LogLevel::Success.symbol(), '✓');
    assert_eq!(LogLevel::Warning.symbol(), '⚠');
    assert_eq!(LogLevel::Error.symbol(), '✗');
    assert_eq!(visible_log_lines(5, 10), 3);
    assert_eq!(visible_log_lines(5, 2), 2);
    assert_eq!(visible_log_lines(1, 10), 0);
    assert_eq!(visible_log_lines(2, 10), 0);
}

#[test]
fn particle_bookkeeping() {
    let mut system: ParticleSystem<u8> = ParticleSystem::new(ParticleMode::DigitalRain, 5);
    assert_eq!(system.mode(), ParticleMode::DigitalRain);
    assert_eq!((system.max_particles, system.frame_count), (5, 0));
    assert!(system.particles.is_empty());
    system.particles.push(1);
    system.particles.push(2);
    system.set_mode(ParticleMode::DigitalRain);
    assert_eq!(system.particles, vec![1, 2]);
    assert!(system.begin_frame());
    assert_eq!(system.frame_count, 1);
    assert_eq!(system.particles, vec![1, 2]);
    system.set_mode(ParticleMode::Off);
    assert!(system.particles.is_empty());
    assert!(!system.begin_frame());
    system.particles.push(3);
    system.toggle_mode();
    assert_eq!(system.mode(), ParticleMode::DigitalRain);
    assert!(system.particles.is_empty());
    system.frame_count = u64::MAX;
    assert!(system.begin_frame());
    assert_eq!(system.frame_count, 0);
}
