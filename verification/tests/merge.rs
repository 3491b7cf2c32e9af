use ghtui::merge::dedup_by_key;
use ghtui::merge::merge_page;
use ghtui::merge::sort_pull_requests_by;
use ghtui::order::SortOrder;
use ghtui::pull_request::PullRequest;

fn pr(number: usize, repository: &str, created_at: i64) -> PullRequest {
    PullRequest::new(
        number,
        repository.to_string(),
        format!("title {number}"),
        "author".to_string(),
        created_at,
        created_at,
    )
}

fn key_of(p: &PullRequest) -> (String, usize) {
    (p.repository.clone(), p.number)
}

#[test]
fn merging_the_same_page_twice_is_idempotent() {
    let page = vec![pr(1, "o/r", 10), pr(2, "o/r", 20), pr(3, "o/s", 30)];
    let mut list: Vec<PullRequest> = Vec::new();
    merge_page(&mut list, page.clone());
    assert_eq!(list.len(), 3);
    merge_page(&mut list, page.clone());
    assert_eq!(list.len(), 3);
    for i in 0..list.len() {
        for j in (i + 1)..list.len() {
            assert_ne!(key_of(&list[i]), key_of(&list[j]));
        }
    }
}

#[test]
fn merge_sorts_by_repository_then_number() {
    let mut list = vec![pr(2, "b/r", 0), pr(9, "a/r", 0), pr(1, "b/r", 0)];
    merge_page(&mut list, vec![pr(5, "a/r", 0)]);
    let keys: Vec<(String, usize)> = list.iter().map(key_of).collect();
    assert_eq!(
        keys,
        vec![
            ("a/r".to_string(), 5),
            ("a/r".to_string(), 9),
            ("b/r".to_string(), 1),
            ("b/r".to_string(), 2),
        ]
    );
}

#[test]
fn duplicate_keeps_the_first_seen_entry() {
    let mut first = pr(1, "o/r", 10);
    first.title = "the original".to_string();
    let mut second = pr(1, "o/r", 10);
    second.title = "the duplicate".to_string();
    let mut list = vec![first];
    merge_page(&mut list, vec![second]);
    assert_eq!(list.len(), 1);
    assert_eq!(list[0].title, "the original");
}

#[test]
fn sort_by_created_is_stable_on_ties() {
    // two items share a created stamp; sorting by the created column keeps
    // their previous relative order
    let a = pr(7, "x/r", 100);
    let b = pr(3, "y/r", 100);
    let c = pr(5, "z/r", 50);
    let mut v = vec![a, b, c];
    sort_pull_requests_by(&mut v, &SortOrder::Column(4));
    let numbers: Vec<usize> = v.iter().map(|p| p.number).collect();
    assert_eq!(numbers, vec![5, 7, 3]);
}

#[test]
fn sort_by_number_column() {
    let mut v = vec![pr(3, "r/r", 0), pr(1, "r/r", 0), pr(2, "r/r", 0)];
    sort_pull_requests_by(&mut v, &SortOrder::Column(0));
    let numbers: Vec<usize> = v.iter().map(|p| p.number).collect();
    assert_eq!(numbers, vec![1, 2, 3]);
}

#[test]
fn sort_by_title_column() {
    let mut a = pr(1, "r/r", 0);
    a.title = "beta".to_string();
    let mut b = pr(2, "r/r", 0);
    b.title = "alpha".to_string();
    let mut v = vec![a, b];
    sort_pull_requests_by(&mut v, &SortOrder::Column(2));
    assert_eq!(v[0].title, "alpha");
    assert_eq!(v[1].title, "beta");
}

#[test]
fn dedup_only_touches_adjacent_runs() {
    let mut v = vec![pr(1, "o/r", 0), pr(1, "o/r", 0), pr(2, "o/r", 0)];
    dedup_by_key(&mut v);
    assert_eq!(v.len(), 2);
    assert_eq!(v[0].number, 1);
    assert_eq!(v[1].number, 2);
}

#[test]
fn fresh_items_get_distinct_surrogate_ids() {
    let a = pr(1, "o/r", 0);
    let b = pr(1, "o/r", 0);
    assert_ne!(a.get_uuid(), b.get_uuid());
    // the surrogate id never takes part in equality
    assert_eq!(a, b);
}
