use vstd::prelude::*;

use crate::action::Action;
use crate::pull_request::PullRequest;

verus! {

/// A plain informational pane over one optional pull request; it only
/// carries the item to show.
#[derive(Debug, Clone)]
pub struct InfoOverlay {
    pub pull_request: Option<PullRequest>,
}

impl InfoOverlay {
    /// An overlay with nothing to show.
    pub fn new() -> (o: InfoOverlay)
        ensures
            o.pull_request is None,
    {
        InfoOverlay { pull_request: Option::None }
    }

    /// The overlay showing this item.
    pub fn with_pull_request(self, pull_request: PullRequest) -> (o: InfoOverlay)
        ensures
            o.pull_request == Some(pull_request),
    {
        InfoOverlay { pull_request: Option::Some(pull_request) }
    }

    /// The pane reacts to no action and emits nothing.
    pub fn update(&mut self, action: Action) -> (emitted: Option<Action>)
        ensures
            *final(self) == *old(self),
            emitted is None,
    {
        match action {
            _ => {},
        }
        Option::None
    }
}

} // verus!
