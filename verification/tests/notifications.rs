use ghtui::action::Action;
use ghtui::notifications::Notification;
use ghtui::notifications::Notifications;

#[test]
fn notification_expires_after_five_seconds() {
    let mut queue = Notifications::new();
    queue.update(Action::Notify(Notification::Info("x".to_string())), 0);
    assert_eq!(queue.len(), 1);
    queue.update(Action::Tick, 4900);
    assert_eq!(queue.len(), 1);
    queue.update(Action::Tick, 5100);
    assert_eq!(queue.len(), 0);
}

#[test]
fn each_notification_expires_on_its_own_clock() {
    let mut queue = Notifications::new();
    queue.update(Action::Notify(Notification::Info("first".to_string())), 0);
    queue.update(Action::Notify(Notification::Warning("second".to_string())), 3000);
    queue.update(Action::Tick, 5500);
    let entries = queue.visible();
    assert_eq!(entries.len(), 1);
    assert_eq!(entries[0].0, Notification::Warning("second".to_string()));
    assert_eq!(entries[0].1, 3000);
}

#[test]
fn other_actions_leave_the_queue_alone() {
    let mut queue = Notifications::new();
    queue.update(Action::Notify(Notification::Error("boom".to_string())), 0);
    queue.update(Action::Render, 9000);
    queue.update(Action::Up, 9000);
    assert_eq!(queue.len(), 1);
}
