use vstd::prelude::*;

use crate::action::Action;
use crate::pull_request::PullRequest;

verus! {

/// A minimal pull-request table without paging, search or overlays: it
/// keeps the fetched rows, a cursor, and the resolved user name.
pub struct PullRequestList {
    pub selected_row: usize,
    pub pull_requests: Vec<PullRequest>,
    pub username: String,
}

impl PullRequestList {
    /// An empty table.
    pub fn new() -> (l: PullRequestList)
        ensures
            l.selected_row == 0,
            l.pull_requests@ == Seq::<PullRequest>::empty(),
            l.username@ == Seq::<char>::empty(),
    {
        PullRequestList { selected_row: 0, pull_requests: Vec::new(), username: String::new() }
    }

    /// The URL of the selected row, if there is one.
    pub fn selected_url(&self) -> (url: Option<&String>)
        ensures
            (match url {
                Some(u) => self.selected_row < self.pull_requests@.len() && *u
                    == self.pull_requests@[self.selected_row as int].url,
                None => self.selected_row >= self.pull_requests@.len(),
            }),
    {
        if self.selected_row < self.pull_requests.len() {
            Option::Some(&self.pull_requests[self.selected_row].url)
        } else {
            Option::None
        }
    }

    /// Apply one action: the cursor moves with a redraw, and a fetch result
    /// replaces the rows.
    pub fn update(&mut self, action: Action) -> (emitted: Option<Action>)
        ensures
            (match action {
                Action::Up => {
                    &&& final(self).selected_row == (if old(self).selected_row > 0 {
                        (old(self).selected_row - 1) as usize
                    } else {
                        0usize
                    })
                    &&& final(self).pull_requests@ == old(self).pull_requests@
                    &&& final(self).username == old(self).username
                    &&& emitted == Some(Action::Render)
                },
                Action::Down => {
                    &&& final(self).selected_row == (if old(self).pull_requests@.len() > 0 {
                        if old(self).selected_row + 1 < old(self).pull_requests@.len() {
                            (old(self).selected_row + 1) as usize
                        } else {
                            (old(self).pull_requests@.len() - 1) as usize
                        }
                    } else {
                        old(self).selected_row
                    })
                    &&& final(self).pull_requests@ == old(self).pull_requests@
                    &&& final(self).username == old(self).username
                    &&& emitted == Some(Action::Render)
                },
                Action::GetReposResult(prs) => {
                    &&& final(self).pull_requests@ == prs@
                    &&& final(self).selected_row == old(self).selected_row
                    &&& final(self).username == old(self).username
                    &&& emitted is None
                },
                _ => {
                    &&& final(self).selected_row == old(self).selected_row
                    &&& final(self).pull_requests@ == old(self).pull_requests@
                    &&& final(self).username == old(self).username
                    &&& emitted is None
                },
            }),
    {
        match action {
            Action::Up => {
                if self.selected_row > 0 {
                    self.selected_row = self.selected_row - 1;
                }
                Option::Some(Action::Render)
            },
            Action::Down => {
                if self.pull_requests.len() > 0 {
                    let last = self.pull_requests.len() - 1;
                    if self.selected_row < last {
                        self.selected_row = self.selected_row + 1;
                    } else {
                        self.selected_row = last;
                    }
                }
                Option::Some(Action::Render)
            },
            Action::GetReposResult(prs) => {
                self.pull_requests = prs;
                Option::None
            },
            _ => Option::None,
        }
    }
}

} // verus!
