use ghtui::action::Action;
use ghtui::command_palette::CommandPalette;
use ghtui::command_palette::PaletteKey;
use ghtui::dispatch::AppCore;
use ghtui::event::AppEvent;
use ghtui::mode::Mode;

#[test]
fn mode_round_trip_returns_to_normal_and_clears_input() {
    let mut core = AppCore::new();
    let mut palette = CommandPalette::new();

    // enter the command palette
    let outcome = core.dispatch(&Action::ChangeMode(Mode::CommandEntry), 0);
    assert!(outcome.fatal.is_none());
    assert_eq!(core.mode, Mode::CommandEntry);
    palette.handle_action(&Action::ChangeMode(Mode::CommandEntry));
    assert!(palette.active);

    // type something, then escape
    palette.handle_key_events(PaletteKey::Char('x'));
    assert_eq!(palette.buffer, vec!['x']);
    let out = palette.handle_key_events(PaletteKey::Escape);
    assert_eq!(out.actions[0], Action::ChangeMode(Mode::Normal));
    assert!(palette.buffer.is_empty());

    // the loop applies the emitted mode change; the palette deactivates
    core.dispatch(&Action::ChangeMode(Mode::Normal), 0);
    assert_eq!(core.mode, Mode::Normal);
    palette.handle_action(&Action::ChangeMode(Mode::Normal));
    assert!(!palette.active);
    assert!(palette.buffer.is_empty());
}

#[test]
fn enter_emits_the_trimmed_command() {
    let mut palette = CommandPalette::new();
    palette.handle_action(&Action::ChangeMode(Mode::CommandEntry));
    for c in [' ', 'h', 'i', ' '] {
        palette.handle_key_events(PaletteKey::Char(c));
    }
    let out = palette.handle_key_events(PaletteKey::Enter);
    assert_eq!(out.actions[0], Action::ExecuteCommand("hi".to_string()));
    assert_eq!(out.actions[1], Action::ChangeMode(Mode::Normal));
    assert_eq!(out.actions[2], Action::Render);
    assert_eq!(out.events, vec![AppEvent::CommandPaletteClosed]);
    assert!(palette.buffer.is_empty());
    assert!(!palette.active);
}

#[test]
fn search_mode_reruns_the_search_on_every_edit() {
    let mut palette = CommandPalette::new();
    palette.handle_action(&Action::ChangeMode(Mode::SearchEntry));
    let out = palette.handle_key_events(PaletteKey::Char('a'));
    assert_eq!(out.actions, vec![Action::Render, Action::ExecuteSearch("a".to_string())]);
    let out = palette.handle_key_events(PaletteKey::Char('b'));
    assert_eq!(out.actions, vec![Action::Render, Action::ExecuteSearch("ab".to_string())]);
    let out = palette.handle_key_events(PaletteKey::Backspace);
    assert_eq!(out.actions, vec![Action::Render, Action::ExecuteSearch("a".to_string())]);
}

#[test]
fn entering_a_modal_mode_clears_the_old_buffer() {
    let mut palette = CommandPalette::new();
    palette.handle_action(&Action::ChangeMode(Mode::CommandEntry));
    palette.handle_key_events(PaletteKey::Char('z'));
    palette.handle_action(&Action::ChangeMode(Mode::Normal));
    let out = palette.handle_action(&Action::ChangeMode(Mode::CommandEntry));
    assert!(palette.buffer.is_empty());
    assert_eq!(out.actions, vec![Action::Render]);
    assert_eq!(out.events, vec![AppEvent::CommandPaletteOpened]);
}

#[test]
fn inactive_palette_ignores_keys() {
    let mut palette = CommandPalette::new();
    let out = palette.handle_key_events(PaletteKey::Char('q'));
    assert!(out.actions.is_empty());
    assert!(palette.buffer.is_empty());
}
