use vstd::prelude::*;

use crate::action::Action;
use crate::action::Emitted;
use crate::event::AppEvent;
use crate::merge;
use crate::merge::merge_pages;
use crate::merge::stable_sort;
use crate::notifications::Notification;
use crate::order::SortOrder;
use crate::provider::DetailRequest;
use crate::provider::FetchRequest;
use crate::pull_request::PullRequest;
use crate::pull_request_info_overlay::overlay_after_action;
use crate::pull_request_info_overlay::PullRequestInfoOverlay;
use crate::text::bytes_of;

verus! {

use vstd::string::StringSliceAdditionalSpecFns;

/// The indices `0, 1, ..., n-1`: a view showing every item.
pub open spec fn identity_indices(n: nat) -> Seq<usize> {
    Seq::new(n, |i: int| i as usize)
}

/// The indices of the items matching the search text, in order.
pub open spec fn matching_indices(items: Seq<PullRequest>, query: Seq<u8>) -> Seq<usize>
    decreases items.len(),
{
    if items.len() == 0 {
        Seq::empty()
    } else {
        let r = matching_indices(items.drop_last(), query);
        if items.last().matches_search(query) {
            r.push((items.len() - 1) as usize)
        } else {
            r
        }
    }
}

/// Every index the search yields points into the item list.
proof fn lemma_matching_indices_bounds(items: Seq<PullRequest>, query: Seq<u8>)
    ensures
        forall|k: int|
            0 <= k < matching_indices(items, query).len() ==> (#[trigger] matching_indices(
                items,
                query,
            )[k]) < items.len(),
    decreases items.len(),
{
    if items.len() > 0 {
        lemma_matching_indices_bounds(items.drop_last(), query);
        let r = matching_indices(items.drop_last(), query);
        let m = matching_indices(items, query);
        assert forall|k: int| 0 <= k < m.len() implies m[k] < items.len() by {
            if items.last().matches_search(query) {
                assert(m == r.push((items.len() - 1) as usize));
                if k < r.len() {
                    assert(m[k] == r[k]);
                }
            } else {
                assert(m == r);
            }
        }
    }
}

/// What one list step hands back to the loop: queued follow-ups, at most
/// one fetch request for the provider, at most one detail request, and at
/// most one URL to open.
#[derive(Debug)]
pub struct ListOutcome {
    pub out: Emitted,
    pub fetch: Option<FetchRequest>,
    pub detail: Option<DetailRequest>,
    pub open_url: Option<String>,
}

impl ListOutcome {
    /// No effects.
    pub fn none() -> (r: ListOutcome)
        ensures
            r.out.actions@ == Seq::<Action>::empty(),
            r.out.events@ == Seq::<AppEvent>::empty(),
            r.fetch is None,
            r.detail is None,
            r.open_url is None,
    {
        ListOutcome {
            out: Emitted::none(),
            fetch: Option::None,
            detail: Option::None,
            open_url: Option::None,
        }
    }
}

/// The pull-request table: the shared item list the merge engine fills, the
/// index view the renderer reads, the cursor into it, the active sort
/// column, and the modal detail overlay.
pub struct PullRequestList {
    pub selected_row: usize,
    pub pull_requests: Vec<PullRequest>,
    pub pull_requests_view: Vec<usize>,
    pub username: Option<String>,
    pub show_info_overlay: bool,
    pub info_overlay: Option<PullRequestInfoOverlay>,
    pub selected_column: usize,
    pub initial_load_size: usize,
    pub page_size: usize,
    pub is_loading_more: bool,
}

impl PullRequestList {
    /// Every view index points into the item list.
    pub open spec fn wf(self) -> bool {
        forall|k: int|
            0 <= k < self.pull_requests_view@.len() ==> (
            #[trigger] self.pull_requests_view@[k]) < self.pull_requests@.len()
    }

    /// The paging fields the navigation actions never touch.
    pub open spec fn same_paging(self, other: PullRequestList) -> bool {
        &&& self.username == other.username
        &&& self.initial_load_size == other.initial_load_size
        &&& self.page_size == other.page_size
        &&& self.is_loading_more == other.is_loading_more
    }

    /// The overlay fields.
    pub open spec fn same_overlay(self, other: PullRequestList) -> bool {
        &&& self.show_info_overlay == other.show_info_overlay
        &&& self.info_overlay == other.info_overlay
    }

    /// The item list and its view.
    pub open spec fn same_items(self, other: PullRequestList) -> bool {
        &&& self.pull_requests@ == other.pull_requests@
        &&& self.pull_requests_view@ == other.pull_requests_view@
    }

    /// The cursor and the sort column.
    pub open spec fn same_selection(self, other: PullRequestList) -> bool {
        &&& self.selected_row == other.selected_row
        &&& self.selected_column == other.selected_column
    }

    /// An empty table: ten items on the first page, twenty afterwards,
    /// sorted by the repository column.
    pub fn new() -> (l: PullRequestList)
        ensures
            l.selected_row == 0,
            l.pull_requests@ == Seq::<PullRequest>::empty(),
            l.pull_requests_view@ == Seq::<usize>::empty(),
            l.username is None,
            !l.show_info_overlay,
            l.info_overlay is None,
            l.selected_column == 1,
            l.initial_load_size == 10,
            l.page_size == 20,
            !l.is_loading_more,
            l.wf(),
    {
        PullRequestList {
            selected_row: 0,
            pull_requests: Vec::new(),
            pull_requests_view: Vec::new(),
            username: Option::None,
            show_info_overlay: false,
            info_overlay: Option::None,
            selected_column: 1,
            initial_load_size: 10,
            page_size: 20,
            is_loading_more: false,
        }
    }

    /// Point the view at every item, in list order.
    fn reset_view(&mut self)
        ensures
            final(self).pull_requests_view@ == identity_indices(
                old(self).pull_requests@.len(),
            ),
            final(self).pull_requests@ == old(self).pull_requests@,
            final(self).same_paging(*old(self)),
            final(self).same_overlay(*old(self)),
            final(self).same_selection(*old(self)),
            final(self).wf(),
    {
        let n = self.pull_requests.len();
        let mut view: Vec<usize> = Vec::new();
        let mut i: usize = 0;
        while i < n
            invariant
                i <= n,
                view@.len() == i,
                forall|k: int| 0 <= k < i ==> (#[trigger] view@[k]) == k,
            decreases n - i,
        {
            view.push(i);
            i = i + 1;
        }
        proof {
            assert(view@ =~= identity_indices(self.pull_requests@.len()));
        }
        self.pull_requests_view = view;
    }

    /// Stable-sort the item list by the active column and take a fresh
    /// full view, so the reader never sees a half-sorted snapshot.
    pub fn sort_pull_requests(&mut self)
        ensures
            final(self).pull_requests@ == stable_sort(
                SortOrder::Column(old(self).selected_column),
                old(self).pull_requests@,
            ),
            final(self).pull_requests_view@ == identity_indices(
                old(self).pull_requests@.len(),
            ),
            final(self).same_paging(*old(self)),
            final(self).same_overlay(*old(self)),
            final(self).same_selection(*old(self)),
            final(self).wf(),
    {
        let col = self.selected_column;
        merge::sort_pull_requests_by(&mut self.pull_requests, &SortOrder::Column(col));
        proof {
            merge::lemma_stable_sort_multiset(SortOrder::Column(col), old(self).pull_requests@);
            old(self).pull_requests@.to_multiset_ensures();
            self.pull_requests@.to_multiset_ensures();
        }
        self.reset_view();
    }

    /// Rebuild the view: no search text shows every item, a search shows
    /// exactly the rows whose title, author or repository contains it.
    pub fn filter_pull_requests(&mut self, search_string: Option<&str>)
        ensures
            final(self).pull_requests@ == old(self).pull_requests@,
            (match search_string {
                Option::Some(q) => final(self).pull_requests_view@ == matching_indices(
                    old(self).pull_requests@,
                    q.spec_bytes(),
                ),
                Option::None => final(self).pull_requests_view@ == identity_indices(
                    old(self).pull_requests@.len(),
                ),
            }),
            final(self).same_paging(*old(self)),
            final(self).same_overlay(*old(self)),
            final(self).same_selection(*old(self)),
            final(self).wf(),
    {
        match search_string {
            Option::None => {
                self.reset_view();
            },
            Option::Some(q) => {
                let n = self.pull_requests.len();
                let mut view: Vec<usize> = Vec::new();
                let mut i: usize = 0;
                proof {
                    assert(self.pull_requests@.take(0) =~= Seq::<PullRequest>::empty());
                }
                while i < n
                    invariant
                        i <= n,
                        n == self.pull_requests@.len(),
                        view@ == matching_indices(
                            self.pull_requests@.take(i as int),
                            q.spec_bytes(),
                        ),
                    decreases n - i,
                {
                    proof {
                        let t1 = self.pull_requests@.take(i as int + 1);
                        assert(t1.drop_last() =~= self.pull_requests@.take(i as int));
                        assert(t1.last() == self.pull_requests@[i as int]);
                    }
                    if self.pull_requests[i].filter(q) {
                        view.push(i);
                    }
                    i = i + 1;
                }
                proof {
                    assert(self.pull_requests@.take(i as int) =~= self.pull_requests@);
                    lemma_matching_indices_bounds(self.pull_requests@, q.spec_bytes());
                }
                self.pull_requests_view = view;
            },
        }
    }

    /// Start a refresh.  An unknown identity asks for its resolution first.
    /// Otherwise, unless a page is already outstanding, the list is cleared
    /// and the first page is requested at the initial size: a refresh
    /// reloads from nothing, so items that vanished remotely disappear.
    /// The guard keeps one fetch in flight at a time.
    pub fn refresh(&mut self) -> (r: ListOutcome)
        ensures
            final(self).same_overlay(*old(self)),
            final(self).same_selection(*old(self)),
            final(self).username == old(self).username,
            final(self).initial_load_size == old(self).initial_load_size,
            final(self).page_size == old(self).page_size,
            old(self).wf() ==> final(self).wf(),
            r.detail is None,
            r.open_url is None,
            r.out.events@.len() == 0,
            (match old(self).username {
                Option::None => {
                    &&& final(self).pull_requests@ == old(self).pull_requests@
                    &&& final(self).pull_requests_view@ == old(self).pull_requests_view@
                    &&& final(self).is_loading_more == old(self).is_loading_more
                    &&& r.fetch == Some(FetchRequest::ResolveUser)
                    &&& r.out.actions@.len() == 1
                    &&& (r.out.actions@[0] matches Action::Notify(n) && (
                    n matches Notification::Info(s) && s@ == "Getting current user..."@))
                },
                Option::Some(u) => {
                    if old(self).is_loading_more {
                        &&& final(self).pull_requests@ == old(self).pull_requests@
                        &&& final(self).pull_requests_view@ == old(self).pull_requests_view@
                        &&& final(self).is_loading_more
                        &&& r.fetch is None
                        &&& r.out.actions@.len() == 0
                    } else {
                        &&& final(self).pull_requests@ == Seq::<PullRequest>::empty()
                        &&& final(self).pull_requests_view@ == Seq::<usize>::empty()
                        &&& final(self).is_loading_more
                        &&& (r.fetch matches Some(req) && (req matches FetchRequest::Page {
                            username,
                            page_size,
                            cursor,
                        } && username == u && page_size == old(self).initial_load_size
                            && cursor is None))
                        &&& r.out.actions@.len() == 1
                        &&& (r.out.actions@[0] matches Action::Notify(n) && (
                        n matches Notification::Info(s) && s@ == "Loading pull requests..."@))
                    }
                },
            }),
    {
        let mut r = ListOutcome::none();
        let u_opt: Option<String> = match &self.username {
            Option::Some(u) => Option::Some(u.clone()),
            Option::None => Option::None,
        };
        match u_opt {
            Option::None => {
                r.fetch = Option::Some(FetchRequest::ResolveUser);
                r.out.actions.push(
                    Action::Notify(Notification::Info("Getting current user...".to_owned())),
                );
            },
            Option::Some(u) => {
                if !self.is_loading_more {
                    self.pull_requests = Vec::new();
                    self.pull_requests_view = Vec::new();
                    self.is_loading_more = true;
                    r.fetch = Option::Some(
                        FetchRequest::Page {
                            username: u,
                            page_size: self.initial_load_size,
                            cursor: Option::None,
                        },
                    );
                    r.out.actions.push(
                        Action::Notify(Notification::Info("Loading pull requests...".to_owned())),
                    );
                }
            },
        }
        r
    }

    /// Take one fetched page: merge it into the list (sort by key, then
    /// deduplicate), show the fresh snapshot, announce it, and keep paging
    /// while the provider reports more.
    pub fn on_load_more(
        &mut self,
        page: Vec<PullRequest>,
        has_next_page: bool,
        end_cursor: Option<String>,
    ) -> (r: ListOutcome)
        ensures
            final(self).pull_requests@ == merge_pages(old(self).pull_requests@, page@),
            final(self).pull_requests_view@ == identity_indices(
                final(self).pull_requests@.len(),
            ),
            final(self).same_overlay(*old(self)),
            final(self).same_selection(*old(self)),
            final(self).username == old(self).username,
            final(self).initial_load_size == old(self).initial_load_size,
            final(self).page_size == old(self).page_size,
            final(self).is_loading_more == (has_next_page && old(self).username is Some),
            final(self).wf(),
            r.detail is None,
            r.open_url is None,
            r.out.events@.len() == 1 && r.out.events@[0] == AppEvent::ProviderReturnedResult,
            (match old(self).username {
                Option::Some(u) => {
                    if has_next_page {
                        &&& (r.fetch matches Some(req) && (req matches FetchRequest::Page {
                            username,
                            page_size,
                            cursor,
                        } && username == u && page_size == old(self).page_size && cursor
                            == end_cursor))
                        &&& r.out.actions@.len() == 1
                        &&& (r.out.actions@[0] matches Action::Notify(n) && (
                        n matches Notification::Info(s) && s@ == "Loading pull requests..."@))
                    } else {
                        r.fetch is None && r.out.actions@.len() == 0
                    }
                },
                Option::None => r.fetch is None && r.out.actions@.len() == 0,
            }),
    {
        merge::merge_page(&mut self.pull_requests, page);
        self.reset_view();
        let mut r = ListOutcome::none();
        r.out.events.push(AppEvent::ProviderReturnedResult);
        let u_opt: Option<String> = match &self.username {
            Option::Some(u) => Option::Some(u.clone()),
            Option::None => Option::None,
        };
        match u_opt {
            Option::Some(u) => {
                if has_next_page {
                    self.is_loading_more = true;
                    r.fetch = Option::Some(
                        FetchRequest::Page {
                            username: u,
                            page_size: self.page_size,
                            cursor: end_cursor,
                        },
                    );
                    r.out.actions.push(
                        Action::Notify(Notification::Info("Loading pull requests...".to_owned())),
                    );
                } else {
                    self.is_loading_more = false;
                }
            },
            Option::None => {
                self.is_loading_more = false;
            },
        }
        r
    }

    /// Apply one action.  Detail-load results always reach the overlay;
    /// one fetched page is always merged; while the overlay is shown every
    /// other action is routed exclusively to it; otherwise the action
    /// drives the list itself.  `Info` and `Enter` open the overlay on the
    /// selected item and request its details; `Escape` and `Back` close it
    /// and reset the search.
    pub fn handle_action(&mut self, action: Action) -> (r: ListOutcome)
        requires
            old(self).wf(),
        ensures
            final(self).wf(),
            (match action {
                Action::PullRequestDetailsLoaded(_) | Action::PullRequestDetailsLoadError => {
                    &&& final(self).info_overlay == (match old(self).info_overlay {
                        Option::Some(o) => Option::Some(overlay_after_action(o, action)),
                        Option::None => Option::None,
                    })
                    &&& final(self).show_info_overlay == old(self).show_info_overlay
                    &&& final(self).same_items(*old(self))
                    &&& final(self).same_paging(*old(self))
                    &&& final(self).same_selection(*old(self))
                    &&& r.fetch is None && r.detail is None && r.open_url is None
                    &&& r.out.events@.len() == 0
                    &&& (old(self).info_overlay is None ==> r.out.actions@.len() == 0)
                    &&& (old(self).info_overlay is Some && action is PullRequestDetailsLoaded
                        ==> r.out.actions@.len() == 1 && r.out.actions@[0] == Action::Render)
                    &&& (old(self).info_overlay is Some && action is PullRequestDetailsLoadError
                        ==> r.out.actions@.len() == 1 && (r.out.actions@[0]
                        matches Action::Notify(n) && (n matches Notification::Info(s) && s@
                        == "Failed to load PR details"@)))
                },
                Action::LoadMorePullRequestsResult(page, has_next_page, end_cursor) => {
                    &&& final(self).pull_requests@ == merge_pages(old(self).pull_requests@, page@)
                    &&& final(self).pull_requests_view@ == identity_indices(
                        final(self).pull_requests@.len(),
                    )
                    &&& final(self).same_overlay(*old(self))
                    &&& final(self).same_selection(*old(self))
                    &&& final(self).username == old(self).username
                    &&& final(self).is_loading_more == (has_next_page && old(
                        self,
                    ).username is Some)
                    &&& r.detail is None && r.open_url is None
                    &&& r.out.events@.len() == 1 && r.out.events@[0]
                        == AppEvent::ProviderReturnedResult
                    &&& (match old(self).username {
                        Option::Some(u) => {
                            if has_next_page {
                                r.fetch matches Some(req) && (req matches FetchRequest::Page {
                                    username,
                                    page_size,
                                    cursor,
                                } && username == u && page_size == old(self).page_size && cursor
                                    == end_cursor)
                            } else {
                                r.fetch is None
                            }
                        },
                        Option::None => r.fetch is None,
                    })
                },
                Action::Info | Action::Enter => {
                    &&& final(self).same_paging(*old(self))
                    &&& final(self).same_selection(*old(self))
                    &&& final(self).same_items(*old(self))
                    &&& r.fetch is None && r.open_url is None
                    &&& r.out.actions@.len() == 0 && r.out.events@.len() == 0
                    &&& (if old(self).selected_row < old(self).pull_requests@.len() {
                        &&& final(self).show_info_overlay == !old(self).show_info_overlay
                        &&& (final(self).info_overlay matches Some(ov) && ov.pull_request
                            .is_copy_of(old(self).pull_requests@[old(self).selected_row as int])
                            && ov.scroll_offset == 0 && !ov.is_loading_details)
                        &&& (r.detail is Some <==> crate::pull_request_info_overlay::contains_byte(
                            bytes_of(
                                old(self).pull_requests@[old(self).selected_row as int].repository@,
                            ),
                            47,
                        ))
                        &&& (r.detail matches Some(d) ==> d.repository == old(
                            self,
                        ).pull_requests@[old(self).selected_row as int].repository && d.number
                            == old(self).pull_requests@[old(self).selected_row as int].number)
                    } else {
                        &&& final(self).same_overlay(*old(self))
                        &&& r.detail is None
                    })
                },
                Action::Escape | Action::Back => {
                    &&& !final(self).show_info_overlay
                    &&& final(self).info_overlay == old(self).info_overlay
                    &&& final(self).pull_requests@ == old(self).pull_requests@
                    &&& final(self).pull_requests_view@ == identity_indices(
                        old(self).pull_requests@.len(),
                    )
                    &&& final(self).same_paging(*old(self))
                    &&& final(self).same_selection(*old(self))
                    &&& r.fetch is None && r.detail is None && r.open_url is None
                    &&& r.out.actions@.len() == 0 && r.out.events@.len() == 0
                },
                _ => {
                    if old(self).show_info_overlay {
                        // exclusive routing: the overlay alone sees the action
                        &&& final(self).info_overlay == (match old(self).info_overlay {
                            Option::Some(o) => Option::Some(overlay_after_action(o, action)),
                            Option::None => Option::None,
                        })
                        &&& final(self).show_info_overlay
                        &&& final(self).same_items(*old(self))
                        &&& final(self).same_paging(*old(self))
                        &&& final(self).same_selection(*old(self))
                        &&& r.fetch is None && r.detail is None
                        &&& r.out.actions@.len() == 0 && r.out.events@.len() == 0
                        &&& (match old(self).info_overlay {
                            Option::Some(o) => (if action is Open {
                                r.open_url matches Some(u) && u == o.pull_request.url
                            } else {
                                r.open_url is None
                            }),
                            Option::None => r.open_url is None,
                        })
                    } else {
                        &&& final(self).same_overlay(*old(self))
                        &&& final(self).username == old(self).username
                        &&& final(self).initial_load_size == old(self).initial_load_size
                        &&& final(self).page_size == old(self).page_size
                        &&& r.detail is None
                        &&& r.out.events@.len() == 0
                        &&& (match action {
                            Action::Up => {
                                &&& final(self).same_items(*old(self))
                                &&& final(self).selected_column == old(self).selected_column
                                &&& final(self).selected_row == (if old(
                                    self,
                                ).pull_requests_view@.len() > 0 && old(self).selected_row > 0 {
                                    (old(self).selected_row - 1) as usize
                                } else {
                                    old(self).selected_row
                                })
                                &&& final(self).is_loading_more == old(self).is_loading_more
                                &&& r.fetch is None && r.open_url is None
                                &&& r.out.actions@.len() == 0
                            },
                            Action::Down => {
                                &&& final(self).same_items(*old(self))
                                &&& final(self).selected_column == old(self).selected_column
                                &&& final(self).selected_row == (if old(
                                    self,
                                ).pull_requests_view@.len() > 0 {
                                    if old(self).selected_row + 1 < old(
                                        self,
                                    ).pull_requests_view@.len() {
                                        (old(self).selected_row + 1) as usize
                                    } else {
                                        (old(self).pull_requests_view@.len() - 1) as usize
                                    }
                                } else {
                                    old(self).selected_row
                                })
                                &&& final(self).is_loading_more == old(self).is_loading_more
                                &&& r.fetch is None && r.open_url is None
                                &&& r.out.actions@.len() == 0
                            },
                            Action::Left => {
                                &&& final(self).selected_column == (if old(self).selected_column
                                    > 0 {
                                    (old(self).selected_column - 1) as usize
                                } else {
                                    0usize
                                })
                                &&& final(self).selected_row == old(self).selected_row
                                &&& final(self).pull_requests@ == stable_sort(
                                    SortOrder::Column(final(self).selected_column),
                                    old(self).pull_requests@,
                                )
                                &&& final(self).pull_requests_view@ == identity_indices(
                                    old(self).pull_requests@.len(),
                                )
                                &&& final(self).is_loading_more == old(self).is_loading_more
                                &&& r.fetch is None && r.open_url is None
                                &&& r.out.actions@.len() == 0
                            },
                            Action::Right => {
                                &&& final(self).selected_column == (if old(self).selected_column
                                    < usize::MAX {
                                    (old(self).selected_column + 1) as usize
                                } else {
                                    old(self).selected_column
                                })
                                &&& final(self).selected_row == old(self).selected_row
                                &&& final(self).pull_requests@ == stable_sort(
                                    SortOrder::Column(final(self).selected_column),
                                    old(self).pull_requests@,
                                )
                                &&& final(self).pull_requests_view@ == identity_indices(
                                    old(self).pull_requests@.len(),
                                )
                                &&& final(self).is_loading_more == old(self).is_loading_more
                                &&& r.fetch is None && r.open_url is None
                                &&& r.out.actions@.len() == 0
                            },
                            Action::Sort(column) => {
                                &&& final(self).selected_column == column
                                &&& final(self).selected_row == old(self).selected_row
                                &&& final(self).pull_requests@ == stable_sort(
                                    SortOrder::Column(column),
                                    old(self).pull_requests@,
                                )
                                &&& final(self).pull_requests_view@ == identity_indices(
                                    old(self).pull_requests@.len(),
                                )
                                &&& final(self).is_loading_more == old(self).is_loading_more
                                &&& r.fetch is None && r.open_url is None
                                &&& r.out.actions@.len() == 0
                            },
                            Action::Refresh => {
                                &&& final(self).same_selection(*old(self))
                                &&& r.open_url is None
                                &&& (match old(self).username {
                                    Option::None => {
                                        &&& final(self).same_items(*old(self))
                                        &&& final(self).is_loading_more == old(
                                            self,
                                        ).is_loading_more
                                        &&& r.fetch == Some(FetchRequest::ResolveUser)
                                        &&& r.out.actions@.len() == 1
                                        &&& (r.out.actions@[0] matches Action::Notify(n) && (
                                        n matches Notification::Info(s) && s@
                                            == "Getting current user..."@))
                                    },
                                    Option::Some(u) => {
                                        if old(self).is_loading_more {
                                            &&& final(self).same_items(*old(self))
                                            &&& final(self).is_loading_more
                                            &&& r.fetch is None
                                            &&& r.out.actions@.len() == 0
                                        } else {
                                            &&& final(self).pull_requests@ == Seq::<
                                                PullRequest,
                                            >::empty()
                                            &&& final(self).pull_requests_view@ == Seq::<
                                                usize,
                                            >::empty()
                                            &&& final(self).is_loading_more
                                            &&& (r.fetch matches Some(req) && (
                                            req matches FetchRequest::Page {
                                                username,
                                                page_size,
                                                cursor,
                                            } && username == u && page_size == old(
                                                self,
                                            ).initial_load_size && cursor is None))
                                            &&& r.out.actions@.len() == 1
                                            &&& (r.out.actions@[0] matches Action::Notify(n) && (
                                            n matches Notification::Info(s) && s@
                                                == "Loading pull requests..."@))
                                        }
                                    },
                                })
                            },
                            Action::Open => {
                                &&& final(self).same_items(*old(self))
                                &&& final(self).same_selection(*old(self))
                                &&& final(self).is_loading_more == old(self).is_loading_more
                                &&& r.fetch is None
                                &&& r.out.actions@.len() == 0
                                &&& (if old(self).selected_row < old(
                                    self,
                                ).pull_requests_view@.len() {
                                    r.open_url matches Some(u) && u == old(self).pull_requests@[
                                        old(self).pull_requests_view@[
                                            old(self).selected_row as int
                                        ] as int
                                    ].url
                                } else {
                                    r.open_url is None
                                })
                            },
                            Action::ExecuteSearch(q) => {
                                &&& final(self).pull_requests@ == old(self).pull_requests@
                                &&& final(self).pull_requests_view@ == matching_indices(
                                    old(self).pull_requests@,
                                    bytes_of(q@),
                                )
                                &&& final(self).same_selection(*old(self))
                                &&& final(self).is_loading_more == old(self).is_loading_more
                                &&& r.fetch is None && r.open_url is None
                                &&& r.out.actions@.len() == 0
                            },
                            _ => {
                                &&& final(self).same_items(*old(self))
                                &&& final(self).same_selection(*old(self))
                                &&& final(self).is_loading_more == old(self).is_loading_more
                                &&& r.fetch is None && r.open_url is None
                                &&& r.out.actions@.len() == 0
                            },
                        })
                    }
                },
            }),
    {
        let is_detail = matches!(
            action,
            Action::PullRequestDetailsLoaded(_) | Action::PullRequestDetailsLoadError
        );
        if is_detail {
            let mut r = ListOutcome::none();
            match &mut self.info_overlay {
                Option::Some(ov) => {
                    let oo = ov.handle_action(action);
                    r.out = oo.out;
                },
                Option::None => {},
            }
            return r;
        }
        if let Action::LoadMorePullRequestsResult(page, has_next_page, end_cursor) = action {
            return self.on_load_more(page, has_next_page, end_cursor);
        }
        let is_open_info = matches!(action, Action::Info | Action::Enter);
        let is_close = matches!(action, Action::Escape | Action::Back);
        let mut r = ListOutcome::none();
        if self.show_info_overlay {
            match &mut self.info_overlay {
                Option::Some(ov) => {
                    let oo = ov.handle_action(action);
                    r.out = oo.out;
                    r.open_url = oo.open_url;
                },
                Option::None => {},
            }
        } else {
            match action {
                Action::Up => {
                    if self.pull_requests_view.len() > 0 && self.selected_row > 0 {
                        self.selected_row = self.selected_row - 1;
                    }
                },
                Action::Down => {
                    if self.pull_requests_view.len() > 0 {
                        let last = self.pull_requests_view.len() - 1;
                        if self.selected_row < last {
                            self.selected_row = self.selected_row + 1;
                        } else {
                            self.selected_row = last;
                        }
                    }
                },
                Action::Left => {
                    if self.selected_column > 0 {
                        self.selected_column = self.selected_column - 1;
                    }
                    self.sort_pull_requests();
                },
                Action::Right => {
                    if self.selected_column < usize::MAX {
                        self.selected_column = self.selected_column + 1;
                    }
                    self.sort_pull_requests();
                },
                Action::Sort(column) => {
                    self.selected_column = column;
                    self.sort_pull_requests();
                },
                Action::Refresh => {
                    r = self.refresh();
                },
                Action::Open => {
                    if self.selected_row < self.pull_requests_view.len() {
                        let idx = self.pull_requests_view[self.selected_row];
                        r.open_url = Option::Some(self.pull_requests[idx].url.clone());
                    }
                },
                Action::ExecuteSearch(q) => {
                    self.filter_pull_requests(Option::Some(q.as_str()));
                },
                _ => {},
            }
        }
        if is_open_info {
            if self.selected_row < self.pull_requests.len() {
                let picked = self.pull_requests[self.selected_row].duplicate();
                let ov = PullRequestInfoOverlay::new(picked);
                r.detail = ov.load();
                self.info_overlay = Option::Some(ov);
                self.show_info_overlay = !self.show_info_overlay;
            }
        }
        if is_close {
            self.show_info_overlay = false;
            self.filter_pull_requests(Option::None);
        }
        r
    }

    /// Apply one event: a resolved identity is recorded and immediately
    /// starts a refresh — the list is cleared and the first page requested;
    /// merged data takes a fresh sorted snapshot; a provider error ends the
    /// outstanding fetch.
    pub fn handle_app_event(&mut self, event: AppEvent) -> (r: ListOutcome)
        requires
            old(self).wf(),
        ensures
            final(self).wf(),
            r.detail is None,
            r.open_url is None,
            r.out.events@.len() == 0,
            (match event {
                AppEvent::UserIdentified(u) => {
                    &&& (final(self).username matches Some(v) && v == u)
                    &&& final(self).same_overlay(*old(self))
                    &&& final(self).same_selection(*old(self))
                    &&& (if old(self).is_loading_more {
                        &&& final(self).pull_requests@ == old(self).pull_requests@
                        &&& final(self).pull_requests_view@ == old(self).pull_requests_view@
                        &&& final(self).is_loading_more
                        &&& r.fetch is None
                        &&& r.out.actions@.len() == 0
                    } else {
                        &&& final(self).pull_requests@ == Seq::<PullRequest>::empty()
                        &&& final(self).pull_requests_view@ == Seq::<usize>::empty()
                        &&& final(self).is_loading_more
                        &&& (r.fetch matches Some(req) && (req matches FetchRequest::Page {
                            username,
                            page_size,
                            cursor,
                        } && username == u && page_size == old(self).initial_load_size
                            && cursor is None))
                        &&& r.out.actions@.len() == 1
                        &&& (r.out.actions@[0] matches Action::Notify(n) && (
                        n matches Notification::Info(s) && s@ == "Loading pull requests..."@))
                    })
                },
                AppEvent::ProviderReturnedResult => {
                    &&& final(self).pull_requests@ == stable_sort(
                        SortOrder::Column(old(self).selected_column),
                        old(self).pull_requests@,
                    )
                    &&& final(self).pull_requests_view@ == identity_indices(
                        old(self).pull_requests@.len(),
                    )
                    &&& final(self).same_paging(*old(self))
                    &&& final(self).same_overlay(*old(self))
                    &&& final(self).same_selection(*old(self))
                    &&& r.fetch is None && r.out.actions@.len() == 0
                },
                AppEvent::ProviderError(_) => {
                    &&& !final(self).is_loading_more
                    &&& final(self).pull_requests@ == old(self).pull_requests@
                    &&& final(self).pull_requests_view@ == old(self).pull_requests_view@
                    &&& final(self).same_overlay(*old(self))
                    &&& final(self).same_selection(*old(self))
                    &&& final(self).username == old(self).username
                    &&& r.fetch is None && r.out.actions@.len() == 0
                },
                _ => {
                    &&& final(self).same_items(*old(self))
                    &&& final(self).same_paging(*old(self))
                    &&& final(self).same_overlay(*old(self))
                    &&& final(self).same_selection(*old(self))
                    &&& r.fetch is None && r.out.actions@.len() == 0
                },
            }),
    {
        match event {
            AppEvent::UserIdentified(u) => {
                self.username = Option::Some(u);
                self.refresh()
            },
            AppEvent::ProviderReturnedResult => {
                self.sort_pull_requests();
                ListOutcome::none()
            },
            AppEvent::ProviderError(_) => {
                self.is_loading_more = false;
                ListOutcome::none()
            },
            _ => ListOutcome::none(),
        }
    }
}

} // verus!
