use vstd::prelude::*;

use crate::action::Action;
use crate::action::Emitted;
use crate::notifications::Notification;
use crate::provider::DetailRequest;
use crate::pull_request::PullRequest;
use crate::text;
use crate::text::bytes_of;

verus! {

/// What one overlay step hands back: queued follow-ups plus, at most, one
/// URL for the operating system to open.
#[derive(Debug)]
pub struct OverlayOutcome {
    pub out: Emitted,
    pub open_url: Option<String>,
}

impl OverlayOutcome {
    /// No effects.
    pub fn none() -> (o: OverlayOutcome)
        ensures
            o.out.actions@ == Seq::<Action>::empty(),
            o.out.events@ == Seq::<crate::event::AppEvent>::empty(),
            o.open_url is None,
    {
        OverlayOutcome { out: Emitted::none(), open_url: Option::None }
    }
}

/// Whether some byte of `s` equals `b`.
pub open spec fn contains_byte(s: Seq<u8>, b: u8) -> bool {
    exists|i: int| 0 <= i < s.len() && #[trigger] s[i] == b
}

/// The modal pane showing one pull request in full.  It scrolls, opens the
/// item in the browser, and swaps in the detailed record once the
/// background load delivers it.
#[derive(Debug, Clone)]
pub struct PullRequestInfoOverlay {
    pub pull_request: PullRequest,
    pub scroll_offset: u16,
    pub is_loading_details: bool,
}

/// The overlay after one action: scrolling saturates at the edges, a
/// loaded detail record replaces the shown item and ends the loading
/// state, and everything else leaves it alone.
pub open spec fn overlay_after_action(o: PullRequestInfoOverlay, a: Action) -> PullRequestInfoOverlay {
    match a {
        Action::Up => PullRequestInfoOverlay {
            scroll_offset: if o.scroll_offset >= 1 {
                (o.scroll_offset - 1) as u16
            } else {
                0u16
            },
            ..o
        },
        Action::Down => PullRequestInfoOverlay {
            scroll_offset: if o.scroll_offset <= u16::MAX - 1 {
                (o.scroll_offset + 1) as u16
            } else {
                u16::MAX
            },
            ..o
        },
        Action::PageUp => PullRequestInfoOverlay {
            scroll_offset: if o.scroll_offset >= 10 {
                (o.scroll_offset - 10) as u16
            } else {
                0u16
            },
            ..o
        },
        Action::PageDn => PullRequestInfoOverlay {
            scroll_offset: if o.scroll_offset <= u16::MAX - 10 {
                (o.scroll_offset + 10) as u16
            } else {
                u16::MAX
            },
            ..o
        },
        Action::PullRequestDetailsLoaded(pr) => PullRequestInfoOverlay {
            pull_request: *pr,
            is_loading_details: false,
            ..o
        },
        Action::PullRequestDetailsLoadError => PullRequestInfoOverlay {
            is_loading_details: false,
            ..o
        },
        _ => o,
    }
}


impl PullRequestInfoOverlay {
    /// An overlay showing this item from the top.
    pub fn new(pull_request: PullRequest) -> (o: PullRequestInfoOverlay)
        ensures
            o.pull_request == pull_request,
            o.scroll_offset == 0,
            !o.is_loading_details,
    {
        PullRequestInfoOverlay { pull_request, scroll_offset: 0, is_loading_details: false }
    }

    /// The detail request for this item, owed exactly when the repository
    /// field has the owner/name shape: a name without a slash cannot be
    /// addressed and yields no request.
    pub fn load(&self) -> (req: Option<DetailRequest>)
        ensures
            req is Some <==> contains_byte(bytes_of(self.pull_request.repository@), 47),
            (req matches Some(d) ==> d.repository == self.pull_request.repository && d.number
                == self.pull_request.number),
    {
        let slash = text::first_byte_index(
            self.pull_request.repository.as_str().as_bytes(),
            47,
        );
        match slash {
            Option::Some(i) => {
                proof {
                    assert(bytes_of(self.pull_request.repository@)[i as int] == 47);
                }
                Option::Some(
                    DetailRequest {
                        repository: self.pull_request.repository.clone(),
                        number: self.pull_request.number,
                    },
                )
            },
            Option::None => {
                proof {
                    assert(!contains_byte(bytes_of(self.pull_request.repository@), 47));
                }
                Option::None
            },
        }
    }

    /// Apply one action: scrolling moves the viewport and saturates at the
    /// edges, open hands the item's URL out, and the two detail-load
    /// results end the loading state — the loaded record replaces the shown
    /// one and asks for a redraw, the error raises a notification.
    pub fn handle_action(&mut self, action: Action) -> (r: OverlayOutcome)
        ensures
            *final(self) == overlay_after_action(*old(self), action),
            r.out.events@.len() == 0,
            (match action {
                Action::Open => r.out.actions@.len() == 0 && (r.open_url matches Some(u) && u
                    == old(self).pull_request.url),
                Action::PullRequestDetailsLoaded(_) => r.out.actions@.len() == 1
                    && r.out.actions@[0] == Action::Render && r.open_url is None,
                Action::PullRequestDetailsLoadError => r.out.actions@.len() == 1 && (
                r.out.actions@[0] matches Action::Notify(n) && (n matches Notification::Info(s)
                    && s@ == "Failed to load PR details"@)) && r.open_url is None,
                _ => r.out.actions@.len() == 0 && r.open_url is None,
            }),
    {
        match action {
            Action::Up => {
                if self.scroll_offset >= 1 {
                    self.scroll_offset = self.scroll_offset - 1;
                }
                OverlayOutcome::none()
            },
            Action::Down => {
                if self.scroll_offset <= u16::MAX - 1 {
                    self.scroll_offset = self.scroll_offset + 1;
                } else {
                    self.scroll_offset = u16::MAX;
                }
                OverlayOutcome::none()
            },
            Action::PageUp => {
                if self.scroll_offset >= 10 {
                    self.scroll_offset = self.scroll_offset - 10;
                } else {
                    self.scroll_offset = 0;
                }
                OverlayOutcome::none()
            },
            Action::PageDn => {
                if self.scroll_offset <= u16::MAX - 10 {
                    self.scroll_offset = self.scroll_offset + 10;
                } else {
                    self.scroll_offset = u16::MAX;
                }
                OverlayOutcome::none()
            },
            Action::Open => {
                let mut r = OverlayOutcome::none();
                r.open_url = Option::Some(self.pull_request.url.clone());
                r
            },
            Action::PullRequestDetailsLoaded(pr) => {
                self.pull_request = *pr;
                self.is_loading_details = false;
                let mut r = OverlayOutcome::none();
                r.out.actions.push(Action::Render);
                r
            },
            Action::PullRequestDetailsLoadError => {
                self.is_loading_details = false;
                let mut r = OverlayOutcome::none();
                r.out.actions.push(
                    Action::Notify(Notification::Info("Failed to load PR details".to_owned())),
                );
                r
            },
            _ => OverlayOutcome::none(),
        }
    }
}

} // verus!
