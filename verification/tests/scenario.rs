use ghtui::action::Action;
use ghtui::event::AppEvent;
use ghtui::provider::FetchRequest;
use ghtui::pull_request::PullRequest;
use ghtui::pull_request_list::PullRequestList;

fn pr(number: usize, repository: &str) -> PullRequest {
    PullRequest::new(
        number,
        repository.to_string(),
        format!("title {number}"),
        "author".to_string(),
        number as i64,
        number as i64,
    )
}

#[test]
fn end_to_end_refresh_resolves_identity_and_pages() {
    let mut list = PullRequestList::new();

    // refresh with unknown identity first resolves the user
    let r = list.handle_action(Action::Refresh);
    assert_eq!(r.fetch, Some(FetchRequest::ResolveUser));

    // the identity arrives; the first page is requested at size 10
    let r = list.handle_app_event(AppEvent::UserIdentified("me".to_string()));
    assert_eq!(
        r.fetch,
        Some(FetchRequest::Page {
            username: "me".to_string(),
            page_size: 10,
            cursor: None,
        })
    );

    // the first page returns 10 items and reports more; the next page is
    // requested at size 20 with the new cursor
    let page1: Vec<PullRequest> = (0..10).map(|n| pr(n, "o/r")).collect();
    let r = list.handle_action(Action::LoadMorePullRequestsResult(
        page1,
        true,
        Some("c1".to_string()),
    ));
    assert_eq!(r.out.events, vec![AppEvent::ProviderReturnedResult]);
    assert_eq!(
        r.fetch,
        Some(FetchRequest::Page {
            username: "me".to_string(),
            page_size: 20,
            cursor: Some("c1".to_string()),
        })
    );
    assert_eq!(list.pull_requests_view.len(), 10);

    // the second page overlaps the first; after merge and dedup the visible
    // count equals the number of distinct (repository, number) pairs
    let page2: Vec<PullRequest> = (5..25).map(|n| pr(n, "o/r")).collect();
    let r = list.handle_action(Action::LoadMorePullRequestsResult(page2, false, None));
    assert_eq!(r.fetch, None);
    assert!(!list.is_loading_more);
    assert_eq!(list.pull_requests_view.len(), 25);
    assert_eq!(list.pull_requests.len(), 25);
}

#[test]
fn refresh_is_guarded_while_a_fetch_is_outstanding() {
    let mut list = PullRequestList::new();
    list.handle_app_event(AppEvent::UserIdentified("me".to_string()));
    assert!(list.is_loading_more);
    // a second refresh while the first page is in flight issues nothing
    let r = list.handle_action(Action::Refresh);
    assert_eq!(r.fetch, None);
    // a provider error releases the guard
    list.handle_app_event(AppEvent::ProviderError("offline".to_string()));
    assert!(!list.is_loading_more);
    let r = list.handle_action(Action::Refresh);
    assert!(r.fetch.is_some());
}

#[test]
fn enter_opens_the_detail_overlay_and_escape_closes_it() {
    let mut list = PullRequestList::new();
    list.handle_action(Action::LoadMorePullRequestsResult(
        vec![pr(7, "owner/repo")],
        false,
        None,
    ));
    let r = list.handle_action(Action::Enter);
    assert!(list.show_info_overlay);
    let detail = r.detail.unwrap();
    assert_eq!(detail.repository, "owner/repo");
    assert_eq!(detail.number, 7);

    let r = list.handle_action(Action::Escape);
    assert!(!list.show_info_overlay);
    assert!(r.detail.is_none());
}

#[test]
fn search_filters_the_view_and_escape_restores_it() {
    let mut list = PullRequestList::new();
    let mut a = pr(1, "o/r");
    a.title = "alpha".to_string();
    let mut b = pr(2, "o/r");
    b.title = "beta".to_string();
    list.handle_action(Action::LoadMorePullRequestsResult(vec![a, b], false, None));
    assert_eq!(list.pull_requests_view.len(), 2);

    list.handle_action(Action::ExecuteSearch("bet".to_string()));
    assert_eq!(list.pull_requests_view, vec![1]);

    list.handle_action(Action::ExecuteSearch("".to_string()));
    assert_eq!(list.pull_requests_view, vec![0, 1]);
}

#[test]
fn navigation_moves_the_cursor_inside_the_view() {
    let mut list = PullRequestList::new();
    let page: Vec<PullRequest> = (0..3).map(|n| pr(n, "o/r")).collect();
    list.handle_action(Action::LoadMorePullRequestsResult(page, false, None));
    assert_eq!(list.selected_row, 0);
    list.handle_action(Action::Up);
    assert_eq!(list.selected_row, 0);
    list.handle_action(Action::Down);
    assert_eq!(list.selected_row, 1);
    list.handle_action(Action::Down);
    list.handle_action(Action::Down);
    // the cursor saturates at the last row
    assert_eq!(list.selected_row, 2);
}

#[test]
fn open_hands_out_the_selected_url() {
    let mut list = PullRequestList::new();
    let mut item = pr(1, "o/r");
    item.url = "https://example.test/1".to_string();
    list.handle_action(Action::LoadMorePullRequestsResult(vec![item], false, None));
    let r = list.handle_action(Action::Open);
    assert_eq!(r.open_url, Some("https://example.test/1".to_string()));
}

#[test]
fn column_cycling_resorts_the_list() {
    let mut list = PullRequestList::new();
    let page: Vec<PullRequest> = vec![pr(2, "b/r"), pr(1, "a/r")];
    list.handle_action(Action::LoadMorePullRequestsResult(page, false, None));
    // merged order is by (repository, number)
    assert_eq!(list.pull_requests[0].number, 1);
    // cycle left to the number column and observe the resort
    list.handle_action(Action::Left);
    assert_eq!(list.selected_column, 0);
    let numbers: Vec<usize> = list.pull_requests.iter().map(|p| p.number).collect();
    assert_eq!(numbers, vec![1, 2]);
    list.handle_action(Action::Sort(4));
    assert_eq!(list.selected_column, 4);
}

#[test]
fn refresh_clears_before_reloading() {
    let mut list = PullRequestList::new();
    list.handle_app_event(AppEvent::UserIdentified("me".to_string()));
    let page: Vec<PullRequest> = (0..3).map(|n| pr(n, "o/r")).collect();
    list.handle_action(Action::LoadMorePullRequestsResult(page, false, None));
    assert_eq!(list.pull_requests.len(), 3);

    // a fresh refresh drops everything and reloads from the first page, so
    // items that vanished remotely disappear
    let r = list.handle_action(Action::Refresh);
    assert!(list.pull_requests.is_empty());
    assert!(list.pull_requests_view.is_empty());
    assert_eq!(
        r.fetch,
        Some(FetchRequest::Page {
            username: "me".to_string(),
            page_size: 10,
            cursor: None,
        })
    );
    let page: Vec<PullRequest> = (1..3).map(|n| pr(n, "o/r")).collect();
    list.handle_action(Action::LoadMorePullRequestsResult(page, false, None));
    assert_eq!(list.pull_requests.len(), 2);
}
