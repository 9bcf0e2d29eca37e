use sweem_tui::api::ApiCommand;
use sweem_tui::calendar::{civil_date, day_number};
use sweem_tui::models::{ClientDto, PaginatedResult, ProjectDto, Role, UserDto};
use sweem_tui::particles::ParticleMode;
use sweem_tui::state::{ErrorPopup, LogEntry, LogLevel, Tab, DEFAULT_DISMISS_MS};

fn days(date: chrono::NaiveDate) -> i32 {
    chrono::Datelike::num_days_from_ce(&date)
}

#[test]
fn test_role_serialization() {
    assert_eq!(Role::from(0), Role::User);
    assert_eq!(Role::from(1), Role::Admin);
    assert_eq!(i32::from(Role::User), 0);
    assert_eq!(i32::from(Role::Admin), 1);
}

#[test]
fn test_project_duration() {
    let project = ProjectDto {
        id: uuid::Uuid::new_v4().as_u128(),
        client_id: uuid::Uuid::new_v4().as_u128(),
        name: Some("Test".to_string()),
        start_date: days(chrono::NaiveDate::from_ymd_opt(2024, 1, 1).unwrap()),
        planned_end_date: days(chrono::NaiveDate::from_ymd_opt(2024, 1, 31).unwrap()),
        actual_end_date: None,
        manager_id: uuid::Uuid::new_v4().as_u128(),
    };
    assert_eq!(project.duration_days(), 30);
}

#[test]
fn role_of_unknown_code_is_user() {
    assert_eq!(Role::from(7), Role::User);
    assert_eq!(Role::from(-1), Role::User);
    assert_eq!(Role::Admin.name(), "Admin");
    assert_eq!(Role::User.name(), "User");
}

#[test]
fn project_status_and_names() {
    let start = day_number(2024, 1, 1).unwrap();
    let end = day_number(2024, 1, 31).unwrap();
    let mut project = ProjectDto {
        id: 1,
        client_id: 2,
        name: None,
        start_date: start,
        planned_end_date: end,
        actual_end_date: None,
        manager_id: 3,
    };
    assert_eq!(project.display_name(), "Unnamed Project");
    assert!(!project.is_completed());
    assert!(!project.is_overdue(end));
    assert!(project.is_overdue(end + 1));
    let interval = project.to_interval();
    assert_eq!(interval.id, 1);
    assert_eq!(interval.start, start);
    assert_eq!(interval.end, end);
    assert_eq!(interval.actual_end, None);
    assert_eq!(interval.label, "Unnamed Project");
    project.actual_end_date = Some(end + 10);
    project.name = Some("Bridge".to_string());
    assert!(project.is_completed());
    assert!(!project.is_overdue(end + 100));
    assert_eq!(project.display_name(), "Bridge");
    assert_eq!(project.to_interval().label, "Bridge");
}

#[test]
fn client_and_user_names() {
    let client = ClientDto {
        id: 9,
        name: None,
        address: None,
        projects_total: 3,
        projects_completed: 1,
    };
    assert_eq!(client.display_name(), "Unnamed Client");
    let named = ClientDto { name: Some("Acme".to_string()), ..client };
    assert_eq!(named.display_name(), "Acme");
    let user = UserDto { id: 4, name: None, login: Some("root".to_string()), role: Role::Admin };
    assert_eq!(user.display_name(), "Unnamed User");
    let named = UserDto { name: Some("Ada".to_string()), ..user };
    assert_eq!(named.display_name(), "Ada");
}

#[test]
fn paginated_items_default_to_empty() {
    let page: PaginatedResult<i32> = PaginatedResult {
        items: None,
        page: 1,
        page_size: 10,
        total_count: 0,
        total_pages: 0,
        has_previous: false,
        has_next: false,
    };
    assert!(page.items().is_empty());
    let page = PaginatedResult { items: Some(vec![4, 5, 6]), ..page };
    assert_eq!(page.items(), &[4, 5, 6]);
}

#[test]
fn day_numbers_follow_the_calendar() {
    assert_eq!(day_number(1, 1, 1), Some(1));
    let d = day_number(2024, 1, 5).unwrap();
    assert_eq!(d, days(chrono::NaiveDate::from_ymd_opt(2024, 1, 5).unwrap()));
    assert_eq!(civil_date(d), Some((2024, 1, 5)));
    assert_eq!(civil_date(d + 27), Some((2024, 2, 1)));
    assert_eq!(day_number(2024, 2, 30), None);
    assert_eq!(day_number(2023, 2, 29), None);
    assert_eq!(day_number(2024, 13, 1), None);
    assert_eq!(civil_date(i32::MAX), None);
    assert_eq!(civil_date(i32::MIN), None);
}

#[test]
fn tabs_cycle() {
    assert_eq!(Tab::Clients.next(), Tab::Timeline);
    assert_eq!(Tab::Timeline.next(), Tab::Users);
    assert_eq!(Tab::Users.next(), Tab::Clients);
    assert_eq!(Tab::Clients.previous(), Tab::Users);
    assert_eq!(Tab::Timeline.previous(), Tab::Clients);
    assert_eq!(Tab::Users.previous(), Tab::Timeline);
    assert_eq!(Tab::Clients.name(), "Clients");
    assert_eq!(Tab::Timeline.name(), "Timeline");
    assert_eq!(Tab::Users.name(), "Users");
    assert_eq!(Tab::default(), Tab::Timeline);
    for tab in [Tab::Clients, Tab::Timeline, Tab::Users] {
        assert_eq!(tab.next().previous(), tab);
        assert_eq!(tab.previous().next(), tab);
    }
}

#[test]
fn particle_modes_cycle() {
    assert_eq!(ParticleMode::DigitalRain.next(), ParticleMode::Starfield);
    assert_eq!(ParticleMode::Starfield.next(), ParticleMode::Off);
    assert_eq!(ParticleMode::Off.next(), ParticleMode::DigitalRain);
    assert_eq!(ParticleMode::DigitalRain.name(), "Digital Rain");
    assert_eq!(ParticleMode::Starfield.name(), "Starfield");
    assert_eq!(ParticleMode::Off.name(), "None");
    assert_eq!(ParticleMode::default(), ParticleMode::DigitalRain);
}

#[test]
fn error_popup_dismisses_after_its_limit() {
    let popup = ErrorPopup::new("API Error".to_string(), "timeout".to_string(), 1_000);
    assert_eq!(popup.title, "API Error");
    assert_eq!(popup.message, "timeout");
    assert_eq!(popup.shown_at, 1_000);
    assert_eq!(popup.auto_dismiss, Some(DEFAULT_DISMISS_MS));
    assert_eq!(DEFAULT_DISMISS_MS, 5_000);
    assert!(!popup.should_dismiss(1_000));
    assert!(!popup.should_dismiss(6_000));
    assert!(popup.should_dismiss(6_001));
    assert!(!popup.should_dismiss(0));
    let manual = ErrorPopup { auto_dismiss: None, ..popup };
    assert!(!manual.should_dismiss(u64::MAX));
}

#[test]
fn log_entries_carry_their_level() {
    let e = LogEntry::info("a".to_string(), 1);
    assert_eq!((e.level, e.message.as_str(), e.timestamp), (LogLevel::Info, "a", 1));
    let e = LogEntry::success("b".to_string(), 2);
    assert_eq!((e.level, e.message.as_str(), e.timestamp), (LogLevel::Success, "b", 2));
    let e = LogEntry::warning("c".to_string(), 3);
    assert_eq!((e.level, e.message.as_str(), e.timestamp), (LogLevel::Warning, "c", 3));
    let e = LogEntry::error("d".to_string(), 4);
    assert_eq!((e.level, e.message.as_str(), e.timestamp), (LogLevel::Error, "d", 4));
}

#[test]
fn api_commands_compare() {
    assert_eq!(ApiCommand::RefreshAll, ApiCommand::RefreshAll);
    assert_ne!(ApiCommand::RefreshAll, ApiCommand::Shutdown);
}
