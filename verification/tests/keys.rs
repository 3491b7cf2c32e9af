use ghtui::action::Action;
use ghtui::keys::KeyBindings;
use ghtui::keys::KeyPress;
use ghtui::keys::KeyResolver;
use ghtui::mode::Mode;

fn g() -> KeyPress {
    KeyPress::from_char('g')
}

#[test]
fn single_key_binding_fires_immediately() {
    // "g" -> Refresh even though "g g" -> Enter is also bound: the shortest
    // complete match wins
    let mut table = KeyBindings::new();
    table.bind(Mode::Normal, vec![g()], Action::Refresh);
    table.bind(Mode::Normal, vec![g(), g()], Action::Enter);
    let mut resolver = KeyResolver::new();
    let hit = resolver.on_key(&table, Mode::Normal, g());
    assert_eq!(hit, Some(&Action::Refresh));
    // the buffer was cleared, so a second g fires Refresh again
    let hit = resolver.on_key(&table, Mode::Normal, g());
    assert_eq!(hit, Some(&Action::Refresh));
}

#[test]
fn two_key_sequence_within_one_tick_fires() {
    let mut table = KeyBindings::new();
    table.bind(Mode::Normal, vec![g(), g()], Action::Enter);
    let mut resolver = KeyResolver::new();
    assert_eq!(resolver.on_key(&table, Mode::Normal, g()), None);
    assert_eq!(resolver.on_key(&table, Mode::Normal, g()), Some(&Action::Enter));
}

#[test]
fn tick_between_presses_resets_the_sequence() {
    let mut table = KeyBindings::new();
    table.bind(Mode::Normal, vec![g(), g()], Action::Enter);
    let mut resolver = KeyResolver::new();
    assert_eq!(resolver.on_key(&table, Mode::Normal, g()), None);
    resolver.on_tick();
    assert_eq!(resolver.on_key(&table, Mode::Normal, g()), None);
}

#[test]
fn bindings_are_per_mode() {
    let mut table = KeyBindings::new();
    table.bind(Mode::CommandEntry, vec![g()], Action::Refresh);
    let mut resolver = KeyResolver::new();
    assert_eq!(resolver.on_key(&table, Mode::Normal, g()), None);
}

#[test]
fn first_registered_binding_wins() {
    let mut table = KeyBindings::new();
    table.bind(Mode::Normal, vec![g()], Action::Refresh);
    table.bind(Mode::Normal, vec![g()], Action::Quit);
    let mut resolver = KeyResolver::new();
    assert_eq!(resolver.on_key(&table, Mode::Normal, g()), Some(&Action::Refresh));
}
