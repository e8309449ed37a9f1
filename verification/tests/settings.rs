use todo::screens::settings::{SettingsScreen, UpdateState};
use todo::system::update::{
    compare_release, get_current_version, update_offer, UpdateError, VersionInfo,
};
use todo::ui::screen::{Key, Screen, ScreenAction, ScreenKind, StatusColor, StatusLine};

fn release(version: &str) -> VersionInfo {
    let mut info = VersionInfo::new(version.to_string(), "2024-01-01".to_string());
    info.add_download("linux-amd64".to_string(), "https://example.org/todo.tar.gz".to_string());
    info
}

#[test]
fn settings_start_idle_on_the_first_entry() {
    let screen = SettingsScreen::new();
    assert_eq!(screen.title, "Settings");
    assert_eq!(
        screen.list.options,
        vec!["Check for Updates".to_string(), "Back".to_string()]
    );
    assert_eq!(screen.list.state.selected(), Some(0));
    assert_eq!(screen.status_message, None);
    assert_eq!(screen.update_state, UpdateState::Idle);
    assert!(!screen.update_pending);
}

#[test]
fn enter_on_check_for_updates_starts_a_check() {
    let mut screen = SettingsScreen::new();
    assert_eq!(screen.handle_input(Key::Enter), Some(ScreenAction::CheckForUpdates));
    assert_eq!(screen.update_state, UpdateState::Checking);
    assert_eq!(screen.status_message, Some(" Checking for updates...".to_string()));
    assert!(screen.update_pending);
}

#[test]
fn enter_on_back_returns_to_the_menu() {
    let mut screen = SettingsScreen::new();
    assert_eq!(screen.handle_input(Key::Down), None);
    assert_eq!(
        screen.handle_input(Key::Enter),
        Some(ScreenAction::Switch(ScreenKind::Menu))
    );
    assert_eq!(screen.update_state, UpdateState::Idle);
}

#[test]
fn esc_and_q_return_to_the_menu() {
    for key in [Key::Esc, Key::Char('q')] {
        let mut screen = SettingsScreen::new();
        assert_eq!(
            screen.handle_input(key),
            Some(ScreenAction::Switch(ScreenKind::Menu))
        );
    }
}

#[test]
fn settings_cursor_wraps_over_two_entries() {
    let mut screen = SettingsScreen::new();
    screen.handle_input(Key::Up);
    assert_eq!(screen.list.state.selected(), Some(1));
    screen.handle_input(Key::Down);
    assert_eq!(screen.list.state.selected(), Some(0));
}

#[test]
fn settings_ignore_other_keys() {
    let mut screen = SettingsScreen::new();
    for key in [Key::Tab, Key::Backspace, Key::Delete, Key::Char('y'), Key::Char('n'), Key::Other] {
        assert_eq!(screen.handle_input(key), None);
        assert_eq!(screen.update_state, UpdateState::Idle);
        assert_eq!(screen.status_message, None);
    }
}

#[test]
fn nothing_arrives_while_the_check_runs() {
    let mut screen = SettingsScreen::new();
    screen.handle_input(Key::Enter);
    screen.poll_updates(None);
    assert_eq!(screen.update_state, UpdateState::Checking);
    assert!(screen.update_pending);
}

#[test]
fn the_cursor_moves_while_the_check_runs() {
    let mut screen = SettingsScreen::new();
    screen.handle_input(Key::Enter);
    assert_eq!(screen.handle_input(Key::Down), None);
    assert_eq!(screen.list.state.selected(), Some(1));
    assert_eq!(screen.update_state, UpdateState::Checking);
    assert_eq!(
        screen.handle_input(Key::Enter),
        Some(ScreenAction::Switch(ScreenKind::Menu))
    );
}

#[test]
fn no_second_check_starts_while_one_runs() {
    let mut screen = SettingsScreen::new();
    assert_eq!(screen.handle_input(Key::Enter), Some(ScreenAction::CheckForUpdates));
    for _ in 0..3 {
        assert_eq!(screen.handle_input(Key::Enter), None);
        assert_eq!(screen.update_state, UpdateState::Checking);
        assert_eq!(screen.status_message, Some(" Checking for updates...".to_string()));
        assert!(screen.update_pending);
        assert_eq!(screen.list.state.selected(), Some(0));
    }
    screen.poll_updates(Some(Some("v9.9.9".to_string())));
    assert_eq!(screen.update_state, UpdateState::UpdateAvailable("v9.9.9".to_string()));
}

#[test]
fn a_new_check_can_start_once_the_result_was_taken() {
    let mut screen = SettingsScreen::new();
    assert_eq!(screen.handle_input(Key::Enter), Some(ScreenAction::CheckForUpdates));
    assert_eq!(screen.handle_input(Key::Enter), None);
    screen.poll_updates(Some(None));
    assert!(!screen.update_pending);
    assert_eq!(screen.handle_input(Key::Enter), Some(ScreenAction::CheckForUpdates));
    assert!(screen.update_pending);
    screen.poll_updates(Some(Some("v9.9.9".to_string())));
    screen.handle_input(Key::Char('n'));
    assert_eq!(screen.update_state, UpdateState::Idle);
    assert_eq!(screen.handle_input(Key::Enter), Some(ScreenAction::CheckForUpdates));
}

#[test]
fn a_newer_version_is_offered() {
    let mut screen = SettingsScreen::new();
    screen.handle_input(Key::Enter);
    screen.poll_updates(Some(Some("v9.9.9".to_string())));
    assert_eq!(screen.update_state, UpdateState::UpdateAvailable("v9.9.9".to_string()));
    assert!(!screen.update_pending);
    assert_eq!(screen.status_message, Some(" Checking for updates...".to_string()));
}

#[test]
fn no_newer_version_ends_idle_and_up_to_date() {
    let mut screen = SettingsScreen::new();
    screen.handle_input(Key::Enter);
    screen.poll_updates(Some(None));
    assert_eq!(screen.update_state, UpdateState::Idle);
    assert_eq!(
        screen.status_message,
        Some(format!(" \u{2713} Version {} is up to date.", get_current_version()))
    );
    assert_eq!(
        screen.status_message,
        Some(" \u{2713} Version 0.1.0 is up to date.".to_string())
    );
    assert!(!screen.update_pending);
}

#[test]
fn a_result_is_taken_once() {
    let mut screen = SettingsScreen::new();
    screen.handle_input(Key::Enter);
    screen.poll_updates(Some(None));
    screen.poll_updates(Some(Some("v9.9.9".to_string())));
    assert_eq!(screen.update_state, UpdateState::Idle);
}

#[test]
fn a_result_without_a_check_is_ignored() {
    let mut screen = SettingsScreen::new();
    screen.poll_updates(Some(Some("v9.9.9".to_string())));
    assert_eq!(screen.update_state, UpdateState::Idle);
    assert_eq!(screen.status_message, None);
}

#[test]
fn accepting_an_update_hands_over_to_the_updater() {
    for key in [Key::Char('y'), Key::Char('Y'), Key::Enter] {
        let mut screen = SettingsScreen::new();
        screen.handle_input(Key::Enter);
        screen.poll_updates(Some(Some("v9.9.9".to_string())));
        assert_eq!(screen.handle_input(key), Some(ScreenAction::UpdateAndExit));
        assert_eq!(screen.update_state, UpdateState::UpdateAvailable("v9.9.9".to_string()));
    }
}

#[test]
fn declining_an_update_returns_to_idle() {
    for key in [Key::Char('n'), Key::Char('N'), Key::Esc] {
        let mut screen = SettingsScreen::new();
        screen.handle_input(Key::Enter);
        screen.poll_updates(Some(Some("v9.9.9".to_string())));
        assert_eq!(screen.handle_input(key), None);
        assert_eq!(screen.update_state, UpdateState::Idle);
        assert_eq!(screen.status_message, Some(" Update cancelled.".to_string()));
    }
}

#[test]
fn the_question_takes_every_key() {
    let mut screen = SettingsScreen::new();
    screen.handle_input(Key::Enter);
    screen.poll_updates(Some(Some("v9.9.9".to_string())));
    for key in [Key::Up, Key::Down, Key::Tab, Key::Char('q'), Key::Backspace, Key::Other] {
        assert_eq!(screen.handle_input(key), None);
        assert_eq!(screen.update_state, UpdateState::UpdateAvailable("v9.9.9".to_string()));
        assert_eq!(screen.list.state.selected(), Some(0));
    }
}

#[test]
fn scenario_check_reports_the_running_version() {
    let mut screen = SettingsScreen::new();
    assert_eq!(screen.handle_input(Key::Enter), Some(ScreenAction::CheckForUpdates));
    let outcome = compare_release(get_current_version(), release(get_current_version()), "linux-amd64");
    let info = outcome.clone().expect("the running version is a semantic version");
    assert!(!info.update_available);
    assert_eq!(info.download_url, None);
    let offer = update_offer(outcome);
    assert_eq!(offer, None);
    screen.poll_updates(Some(offer));
    assert_eq!(screen.update_state, UpdateState::Idle);
    let message = screen.status_message.clone().unwrap();
    assert!(message.contains("up to date"));
    assert_ne!(screen.update_state, UpdateState::UpdateAvailable(get_current_version().to_string()));
}

#[test]
fn scenario_check_that_fails_ends_idle() {
    let mut screen = SettingsScreen::new();
    screen.handle_input(Key::Enter);
    let outcome = compare_release(get_current_version(), release("not a version"), "linux-amd64");
    assert_eq!(outcome, Err(UpdateError::InvalidLatestVersion));
    screen.poll_updates(Some(update_offer(outcome)));
    assert_eq!(screen.update_state, UpdateState::Idle);
}

#[test]
fn scenario_check_finds_a_newer_release() {
    let mut screen = SettingsScreen::new();
    screen.handle_input(Key::Enter);
    let outcome = compare_release(get_current_version(), release("v99.0.0"), "linux-amd64");
    screen.poll_updates(Some(update_offer(outcome)));
    assert_eq!(screen.update_state, UpdateState::UpdateAvailable("v99.0.0".to_string()));
    assert_eq!(screen.handle_input(Key::Char('y')), Some(ScreenAction::UpdateAndExit));
}

#[test]
fn active_screen_hands_keys_to_the_settings_screen() {
    let mut screen = Screen::Settings(SettingsScreen::new());
    assert_eq!(screen.kind(), ScreenKind::Settings);
    assert_eq!(screen.handle_input(Key::Enter), Some(ScreenAction::CheckForUpdates));
    assert_eq!(screen.kind(), ScreenKind::Settings);
}

#[test]
fn settings_status_line_follows_the_update_state() {
    let mut screen = SettingsScreen::new();
    assert_eq!(
        screen.status_line(),
        StatusLine {
            text: " Press Enter on an option to select.  |  Esc / q \u{2192} Back".to_string(),
            color: StatusColor::Green,
        }
    );
    screen.handle_input(Key::Enter);
    assert_eq!(
        screen.status_line(),
        StatusLine { text: " Checking for updates...".to_string(), color: StatusColor::Yellow }
    );
    screen.poll_updates(Some(Some("v9.9.9".to_string())));
    assert_eq!(
        screen.status_line(),
        StatusLine { text: " Waiting for input...".to_string(), color: StatusColor::Yellow }
    );
    screen.handle_input(Key::Char('n'));
    assert_eq!(
        screen.status_line(),
        StatusLine { text: " Update cancelled.".to_string(), color: StatusColor::Green }
    );
    screen.handle_input(Key::Enter);
    screen.poll_updates(Some(None));
    assert_eq!(
        screen.status_line(),
        StatusLine {
            text: " \u{2713} Version 0.1.0 is up to date.".to_string(),
            color: StatusColor::Green,
        }
    );
}
