use ghtui::action::Action;
use ghtui::dispatch::AppCore;
use ghtui::event::AppEvent;
use ghtui::keys::KeyBindings;
use ghtui::keys::KeyPress;
use ghtui::mode::Mode;
use ghtui::notifications::Notification;

#[test]
fn quit_suspend_resume_set_the_lifecycle_flags() {
    let mut core = AppCore::new();
    core.dispatch(&Action::Suspend, 0);
    assert!(core.should_suspend);
    core.dispatch(&Action::Resume, 0);
    assert!(!core.should_suspend);
    core.dispatch(&Action::Quit, 0);
    assert!(core.should_quit);
}

#[test]
fn error_actions_become_notifications() {
    let mut core = AppCore::new();
    let outcome = core.dispatch(&Action::Error("boom".to_string()), 0);
    assert_eq!(
        outcome.out.actions,
        vec![Action::Notify(Notification::Error("Error: boom".to_string()))]
    );
}

#[test]
fn mode_change_is_announced_on_the_event_channel() {
    let mut core = AppCore::new();
    let outcome = core.dispatch(&Action::ChangeMode(Mode::SearchEntry), 0);
    assert_eq!(core.mode, Mode::SearchEntry);
    assert_eq!(outcome.out.events, vec![AppEvent::ModeChanged(Mode::SearchEntry)]);
}

#[test]
fn palette_openers_route_through_change_mode() {
    let mut core = AppCore::new();
    let outcome = core.dispatch(&Action::OpenCommandPalette, 0);
    assert_eq!(
        outcome.out.actions,
        vec![Action::ChangeMode(Mode::CommandEntry), Action::Render]
    );
    let outcome = core.dispatch(&Action::OpenSearchPalette, 0);
    assert_eq!(
        outcome.out.actions,
        vec![Action::ChangeMode(Mode::SearchEntry), Action::Render]
    );
}

#[test]
fn render_and_resize_request_a_redraw() {
    let mut core = AppCore::new();
    assert!(core.dispatch(&Action::Render, 0).redraw);
    assert!(core.dispatch(&Action::Resize(80, 24), 0).redraw);
    assert!(!core.dispatch(&Action::Refresh, 0).redraw);
}

#[test]
fn runaway_dispatch_is_fatal() {
    let mut core = AppCore::new();
    for _ in 0..50 {
        assert!(core.dispatch(&Action::Refresh, 0).fatal.is_none());
    }
    let outcome = core.dispatch(&Action::Refresh, 0);
    let trip = outcome.fatal.unwrap();
    assert_eq!(trip.kind_name, "Refresh");
    assert_eq!(trip.count, 51);
}

#[test]
fn modal_mode_captures_keys_away_from_the_resolver() {
    let mut core = AppCore::new();
    let mut table = KeyBindings::new();
    table.bind(Mode::Normal, vec![KeyPress::from_char('q')], Action::Quit);
    core.dispatch(&Action::ChangeMode(Mode::CommandEntry), 0);
    assert_eq!(core.handle_key(&table, KeyPress::from_char('q')), None);
    core.dispatch(&Action::ChangeMode(Mode::Normal), 0);
    assert_eq!(core.handle_key(&table, KeyPress::from_char('q')), Some(&Action::Quit));
}

#[test]
fn tick_clears_a_pending_key_sequence() {
    let mut core = AppCore::new();
    let mut table = KeyBindings::new();
    let g = KeyPress::from_char('g');
    table.bind(Mode::Normal, vec![g, g], Action::Enter);
    assert_eq!(core.handle_key(&table, g), None);
    core.dispatch(&Action::Tick, 0);
    assert_eq!(core.handle_key(&table, g), None);
}

#[test]
fn quit_event_sets_the_flag() {
    let mut core = AppCore::new();
    core.handle_app_event(&AppEvent::Quit);
    assert!(core.should_quit);
    let mut core = AppCore::new();
    core.handle_app_event(&AppEvent::ModeChanged(Mode::SearchEntry));
    assert_eq!(core.mode, Mode::SearchEntry);
}
