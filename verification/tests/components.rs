use ghtui::action::Action;
use ghtui::event::AppEvent;
use ghtui::info_overlay::InfoOverlay;
use ghtui::provider::FetchRequest;
use ghtui::provider::PullRequestProvider;
use ghtui::pull_request::PullRequest;
use ghtui::pull_request_info_overlay::PullRequestInfoOverlay;
use ghtui::thing_list::ThingList;

fn pr(number: usize, repository: &str) -> PullRequest {
    PullRequest::new(
        number,
        repository.to_string(),
        format!("title {number}"),
        "author".to_string(),
        0,
        0,
    )
}

#[test]
fn info_overlay_test_new() {}

#[test]
fn pull_request_info_overlay_test_new() {}

#[test]
fn test_new() {
    let item_list = ghtui::pull_request_list::PullRequestList::new();
    assert_eq!(item_list.selected_row, 0);
}

#[test]
fn repo_list_test_new() {
    let item_list = ghtui::repo_list::PullRequestList::new();
    assert_eq!(item_list.selected_row, 0);
}

#[test]
fn repo_list_test_up_down_actions() {
    let mut item_list = ghtui::repo_list::PullRequestList::new();
    assert_eq!(item_list.update(Action::Up), Some(Action::Render));
    assert_eq!(item_list.update(Action::Down), Some(Action::Render));
}

#[test]
fn thing_list_test_new() {
    let item_list = ThingList::new();
    assert_eq!(item_list.selected_row, 0);
}

#[test]
fn thing_list_test_up_down_actions() {
    let mut item_list = ThingList::new();
    assert_eq!(item_list.update(Action::Up), Some(Action::Render));
    assert_eq!(item_list.update(Action::Down), Some(Action::Render));
}

#[test]
fn info_overlay_carries_its_item() {
    let overlay = InfoOverlay::new().with_pull_request(pr(4, "o/r"));
    assert_eq!(overlay.pull_request.unwrap().number, 4);
}

#[test]
fn detail_overlay_scrolls_with_saturation() {
    let mut overlay = PullRequestInfoOverlay::new(pr(1, "o/r"));
    overlay.handle_action(Action::Up);
    assert_eq!(overlay.scroll_offset, 0);
    overlay.handle_action(Action::Down);
    overlay.handle_action(Action::PageDn);
    assert_eq!(overlay.scroll_offset, 11);
    overlay.handle_action(Action::PageUp);
    assert_eq!(overlay.scroll_offset, 1);
}

#[test]
fn detail_overlay_swaps_in_the_loaded_record() {
    let mut overlay = PullRequestInfoOverlay::new(pr(1, "o/r"));
    let mut detailed = pr(1, "o/r");
    detailed.body = "full description".to_string();
    let out = overlay.handle_action(Action::PullRequestDetailsLoaded(Box::new(detailed)));
    assert_eq!(overlay.pull_request.body, "full description");
    assert_eq!(out.out.actions, vec![Action::Render]);
}

#[test]
fn detail_request_needs_an_owner_and_a_name() {
    let overlay = PullRequestInfoOverlay::new(pr(1, "owner/name"));
    let req = overlay.load().unwrap();
    assert_eq!(req.repository, "owner/name");
    assert_eq!(req.number, 1);
    let overlay = PullRequestInfoOverlay::new(pr(1, "no-slash-here"));
    assert!(overlay.load().is_none());
}

#[test]
fn provider_resolves_identity_then_pages() {
    let mut provider = PullRequestProvider::new();
    assert_eq!(provider.provide(), FetchRequest::ResolveUser);
    provider.handle_app_event(&AppEvent::UserIdentified("me".to_string()));
    assert_eq!(
        provider.provide(),
        FetchRequest::Page { username: "me".to_string(), page_size: 20, cursor: None }
    );
    let (event, next) = provider.on_page(vec![pr(1, "o/r")], true, Some("c".to_string()));
    assert_eq!(event, AppEvent::ProviderReturnedResult);
    assert_eq!(
        next,
        Some(FetchRequest::Page {
            username: "me".to_string(),
            page_size: 20,
            cursor: Some("c".to_string()),
        })
    );
    let (_, next) = provider.on_page(vec![pr(2, "o/r")], false, None);
    assert_eq!(next, None);
    let things = provider.get_things();
    assert_eq!(things.len(), 2);
    assert_eq!(things[0].number, 1);
    assert_eq!(provider.commands(), vec!["pr", "pullrequest", "pull-request", "pull_request"]);
    // a fresh refresh drops the stored items before reloading
    provider.provide();
    assert!(provider.get_things().is_empty());
}

#[test]
fn thing_list_sorts_its_rows() {
    let mut list = ThingList::new();
    list.set_things(vec![pr(2, "b/r"), pr(1, "a/r")]);
    // column 1 is the repository; cycling left sorts by number
    list.update(Action::Left);
    assert_eq!(list.selected_column, 0);
    let numbers: Vec<usize> = list.things.as_ref().unwrap().iter().map(|p| p.number).collect();
    assert_eq!(numbers, vec![1, 2]);
}

#[test]
fn action_kinds_have_names() {
    assert_eq!(Action::Refresh.kind_name(), "Refresh");
    assert_eq!(Action::Notify(ghtui::notifications::Notification::Info("x".to_string()))
        .kind_name(), "Notify");
    assert_ne!(Action::Up.kind_id(), Action::Down.kind_id());
}

#[test]
fn search_matches_title_author_and_repository() {
    let mut item = pr(1, "o/repo");
    item.title = "fix the parser".to_string();
    item.author = "ada".to_string();
    assert!(item.filter("parser"));
    assert!(item.filter("ada"));
    assert!(item.filter("o/re"));
    assert!(!item.filter("nothing"));
    assert!(item.filter(""));
}

#[test]
fn keystroke_history_clears_after_the_cooldown() {
    let mut keys = ghtui::keystrokes::Keystrokes::new();
    let g = ghtui::keys::KeyPress::from_char('g');
    assert_eq!(keys.handle_key_events(g, 100), Some(Action::Render));
    keys.update(&Action::Tick, 600);
    assert_eq!(keys.key_history.len(), 1);
    keys.update(&Action::Tick, 1200);
    assert_eq!(keys.key_history.len(), 0);
}
