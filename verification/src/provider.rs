use vstd::prelude::*;

use crate::event::AppEvent;
use crate::pull_request::PullRequest;

verus! {

/// A request the core hands to the outside data provider.  The provider
/// performs the network call and answers by sending an action or event back
/// through the channels; it never touches core state directly.
#[derive(Debug, Clone, PartialEq)]
pub enum FetchRequest {
    /// Resolve the acting user's login name.
    ResolveUser,
    /// Fetch one page of pull requests involving `username`.
    Page { username: String, page_size: usize, cursor: Option<String> },
}

/// A request for the full details of one pull request.
#[derive(Debug, Clone, PartialEq)]
pub struct DetailRequest {
    pub repository: String,
    pub number: usize,
}

/// The pull-request data provider's core state: the fetched items, the
/// resolved user, and the page size it asks for.
#[derive(Debug)]
pub struct PullRequestProvider {
    pub pull_requests: Vec<PullRequest>,
    pub username: Option<String>,
    pub page_size: usize,
}

impl PullRequestProvider {
    /// An empty provider asking for pages of twenty.
    pub fn new() -> (p: PullRequestProvider)
        ensures
            p.pull_requests@ == Seq::<PullRequest>::empty(),
            p.username is None,
            p.page_size == 20,
    {
        PullRequestProvider { pull_requests: Vec::new(), username: None, page_size: 20 }
    }

    /// Decide what a refresh needs next: the user's identity if it is still
    /// unknown, otherwise the first page — and in that case the stored
    /// items are dropped first, since a refresh reloads from nothing.
    pub fn provide(&mut self) -> (req: FetchRequest)
        ensures
            final(self).username == old(self).username,
            final(self).page_size == old(self).page_size,
            (match old(self).username {
                Option::None => req == FetchRequest::ResolveUser && final(self).pull_requests@
                    == old(self).pull_requests@,
                Option::Some(u) => (req matches FetchRequest::Page {
                    username,
                    page_size,
                    cursor,
                } && username == u && page_size == old(self).page_size && cursor is None)
                    && final(self).pull_requests@ == Seq::<PullRequest>::empty(),
            }),
    {
        let u_opt: Option<String> = match &self.username {
            Option::Some(u) => Option::Some(u.clone()),
            Option::None => Option::None,
        };
        match u_opt {
            Option::None => FetchRequest::ResolveUser,
            Option::Some(u) => {
                self.pull_requests = Vec::new();
                FetchRequest::Page {
                    username: u,
                    page_size: self.page_size,
                    cursor: Option::None,
                }
            },
        }
    }

    /// Record one fetched page: append its items, announce the new data,
    /// and ask for the next page while the provider reports more.
    pub fn on_page(&mut self, items: Vec<PullRequest>, has_next_page: bool, end_cursor: Option<
        String,
    >) -> (r: (AppEvent, Option<FetchRequest>))
        ensures
            final(self).pull_requests@ == old(self).pull_requests@ + items@,
            final(self).username == old(self).username,
            final(self).page_size == old(self).page_size,
            r.0 == AppEvent::ProviderReturnedResult,
            (match old(self).username {
                Option::Some(u) => {
                    if has_next_page {
                        r.1 matches Some(req) && (req matches FetchRequest::Page {
                            username,
                            page_size,
                            cursor,
                        } && username == u && page_size == old(self).page_size && cursor
                            == end_cursor)
                    } else {
                        r.1 is None
                    }
                },
                Option::None => r.1 is None,
            }),
    {
        let mut items = items;
        self.pull_requests.append(&mut items);
        let next = if has_next_page {
            match &self.username {
                Option::Some(u) => Option::Some(
                    FetchRequest::Page {
                        username: u.clone(),
                        page_size: self.page_size,
                        cursor: end_cursor,
                    },
                ),
                Option::None => Option::None,
            }
        } else {
            Option::None
        };
        (AppEvent::ProviderReturnedResult, next)
    }

    /// Record the resolved identity from the event channel.
    pub fn handle_app_event(&mut self, event: &AppEvent)
        ensures
            final(self).pull_requests@ == old(self).pull_requests@,
            final(self).page_size == old(self).page_size,
            (match *event {
                AppEvent::UserIdentified(u) => final(self).username matches Some(v) && v == u,
                _ => final(self).username == old(self).username,
            }),
    {
        match event {
            AppEvent::UserIdentified(u) => {
                self.username = Option::Some(u.clone());
            },
            _ => {},
        }
    }

    /// Copies of the fetched items, for a renderer's snapshot.
    pub fn get_things(&self) -> (things: Vec<PullRequest>)
        ensures
            things@.len() == self.pull_requests@.len(),
            forall|i: int|
                0 <= i < things@.len() ==> (#[trigger] things@[i]).is_copy_of(
                    self.pull_requests@[i],
                ),
    {
        let mut things: Vec<PullRequest> = Vec::new();
        let mut i: usize = 0;
        while i < self.pull_requests.len()
            invariant
                i <= self.pull_requests@.len(),
                things@.len() == i,
                forall|j: int|
                    0 <= j < i ==> (#[trigger] things@[j]).is_copy_of(self.pull_requests@[j]),
            decreases self.pull_requests@.len() - i,
        {
            things.push(self.pull_requests[i].duplicate());
            i = i + 1;
        }
        things
    }

    /// The palette names under which this provider can be summoned.
    pub fn commands(&self) -> (names: Vec<&'static str>)
        ensures
            names@.len() == 4,
            names@[0]@ == "pr"@,
            names@[1]@ == "pullrequest"@,
            names@[2]@ == "pull-request"@,
            names@[3]@ == "pull_request"@,
    {
        let mut names: Vec<&'static str> = Vec::new();
        names.push("pr");
        names.push("pullrequest");
        names.push("pull-request");
        names.push("pull_request");
        names
    }
}

} // verus!
