use vstd::prelude::*;

use crate::event::AppEvent;
use crate::mode::Mode;
use crate::notifications::Notification;
use crate::pull_request::PullRequest;

verus! {

/// What one component step hands back to the dispatch loop: follow-up
/// actions for the action queue and signals for the event channel, each in
/// emission order.
#[derive(Debug)]
pub struct Emitted {
    pub actions: Vec<Action>,
    pub events: Vec<AppEvent>,
}

impl Emitted {
    /// No follow-ups.
    pub fn none() -> (e: Emitted)
        ensures
            e.actions@ == Seq::<Action>::empty(),
            e.events@ == Seq::<AppEvent>::empty(),
    {
        Emitted { actions: Vec::new(), events: Vec::new() }
    }
}

/// The single vocabulary of intents flowing through the dispatch loop.
/// Every action is self-contained and cloneable; none carries a lock or a
/// handle to shared mutable state.
#[derive(Debug, Clone, PartialEq)]
pub enum Action {
    Tick,
    Render,
    Resize(u16, u16),
    Suspend,
    Resume,
    Quit,
    Refresh,
    Error(String),
    Info,
    Help,
    Up,
    Down,
    Enter,
    Open,
    Escape,
    Back,
    PageDn,
    PageUp,
    Sort(usize),
    Notify(Notification),
    OpenCommandPalette,
    OpenSearchPalette,
    GetRepos,
    GetReposResult(Vec<PullRequest>),
    GetCurrentUserResult(String),
    GetCurrentUser,
    PullRequestDetailsLoaded(Box<PullRequest>),
    PullRequestDetailsLoadError,
    LoadMorePullRequests,
    LoadMorePullRequestsResult(Vec<PullRequest>, bool, Option<String>),
    Left,
    Right,
    ChangeMode(Mode),
    ExecuteCommand(String),
    ExecuteSearch(String),
}

impl Action {
    /// A numeric tag for the action's kind, ignoring any payload.  The
    /// circuit breaker tracks dispatch rates per kind.
    pub open spec fn kind(self) -> u64 {
        match self {
            Action::Tick => 0,
            Action::Render => 1,
            Action::Resize(..) => 2,
            Action::Suspend => 3,
            Action::Resume => 4,
            Action::Quit => 5,
            Action::Refresh => 6,
            Action::Error(..) => 7,
            Action::Info => 8,
            Action::Help => 9,
            Action::Up => 10,
            Action::Down => 11,
            Action::Enter => 12,
            Action::Open => 13,
            Action::Escape => 14,
            Action::Back => 15,
            Action::PageDn => 16,
            Action::PageUp => 17,
            Action::Sort(..) => 18,
            Action::Notify(..) => 19,
            Action::OpenCommandPalette => 20,
            Action::OpenSearchPalette => 21,
            Action::GetRepos => 22,
            Action::GetReposResult(..) => 23,
            Action::GetCurrentUserResult(..) => 24,
            Action::GetCurrentUser => 25,
            Action::PullRequestDetailsLoaded(..) => 26,
            Action::PullRequestDetailsLoadError => 27,
            Action::LoadMorePullRequests => 28,
            Action::LoadMorePullRequestsResult(..) => 29,
            Action::Left => 30,
            Action::Right => 31,
            Action::ChangeMode(..) => 32,
            Action::ExecuteCommand(..) => 33,
            Action::ExecuteSearch(..) => 34,
        }
    }

    /// Executable form of `kind`.
    pub fn kind_id(&self) -> (k: u64)
        ensures
            k == self.kind(),
    {
        match self {
            Action::Tick => 0,
            Action::Render => 1,
            Action::Resize(..) => 2,
            Action::Suspend => 3,
            Action::Resume => 4,
            Action::Quit => 5,
            Action::Refresh => 6,
            Action::Error(..) => 7,
            Action::Info => 8,
            Action::Help => 9,
            Action::Up => 10,
            Action::Down => 11,
            Action::Enter => 12,
            Action::Open => 13,
            Action::Escape => 14,
            Action::Back => 15,
            Action::PageDn => 16,
            Action::PageUp => 17,
            Action::Sort(..) => 18,
            Action::Notify(..) => 19,
            Action::OpenCommandPalette => 20,
            Action::OpenSearchPalette => 21,
            Action::GetRepos => 22,
            Action::GetReposResult(..) => 23,
            Action::GetCurrentUserResult(..) => 24,
            Action::GetCurrentUser => 25,
            Action::PullRequestDetailsLoaded(..) => 26,
            Action::PullRequestDetailsLoadError => 27,
            Action::LoadMorePullRequests => 28,
            Action::LoadMorePullRequestsResult(..) => 29,
            Action::Left => 30,
            Action::Right => 31,
            Action::ChangeMode(..) => 32,
            Action::ExecuteCommand(..) => 33,
            Action::ExecuteSearch(..) => 34,
        }
    }

    /// The kind's name, as shown in diagnostics.
    pub open spec fn kind_name_spec(self) -> Seq<char> {
        match self {
            Action::Tick => "Tick"@,
            Action::Render => "Render"@,
            Action::Resize(..) => "Resize"@,
            Action::Suspend => "Suspend"@,
            Action::Resume => "Resume"@,
            Action::Quit => "Quit"@,
            Action::Refresh => "Refresh"@,
            Action::Error(..) => "Error"@,
            Action::Info => "Info"@,
            Action::Help => "Help"@,
            Action::Up => "Up"@,
            Action::Down => "Down"@,
            Action::Enter => "Enter"@,
            Action::Open => "Open"@,
            Action::Escape => "Escape"@,
            Action::Back => "Back"@,
            Action::PageDn => "PageDn"@,
            Action::PageUp => "PageUp"@,
            Action::Sort(..) => "Sort"@,
            Action::Notify(..) => "Notify"@,
            Action::OpenCommandPalette => "OpenCommandPalette"@,
            Action::OpenSearchPalette => "OpenSearchPalette"@,
            Action::GetRepos => "GetRepos"@,
            Action::GetReposResult(..) => "GetReposResult"@,
            Action::GetCurrentUserResult(..) => "GetCurrentUserResult"@,
            Action::GetCurrentUser => "GetCurrentUser"@,
            Action::PullRequestDetailsLoaded(..) => "PullRequestDetailsLoaded"@,
            Action::PullRequestDetailsLoadError => "PullRequestDetailsLoadError"@,
            Action::LoadMorePullRequests => "LoadMorePullRequests"@,
            Action::LoadMorePullRequestsResult(..) => "LoadMorePullRequestsResult"@,
            Action::Left => "Left"@,
            Action::Right => "Right"@,
            Action::ChangeMode(..) => "ChangeMode"@,
            Action::ExecuteCommand(..) => "ExecuteCommand"@,
            Action::ExecuteSearch(..) => "ExecuteSearch"@,
        }
    }

    /// The kind's name, for diagnostics such as the circuit breaker's fatal
    /// report.
    pub fn kind_name(&self) -> (name: String)
        ensures
            name@ == self.kind_name_spec(),
    {
        let s: &str = match self {
            Action::Tick => "Tick",
            Action::Render => "Render",
            Action::Resize(..) => "Resize",
            Action::Suspend => "Suspend",
            Action::Resume => "Resume",
            Action::Quit => "Quit",
            Action::Refresh => "Refresh",
            Action::Error(..) => "Error",
            Action::Info => "Info",
            Action::Help => "Help",
            Action::Up => "Up",
            Action::Down => "Down",
            Action::Enter => "Enter",
            Action::Open => "Open",
            Action::Escape => "Escape",
            Action::Back => "Back",
            Action::PageDn => "PageDn",
            Action::PageUp => "PageUp",
            Action::Sort(..) => "Sort",
            Action::Notify(..) => "Notify",
            Action::OpenCommandPalette => "OpenCommandPalette",
            Action::OpenSearchPalette => "OpenSearchPalette",
            Action::GetRepos => "GetRepos",
            Action::GetReposResult(..) => "GetReposResult",
            Action::GetCurrentUserResult(..) => "GetCurrentUserResult",
            Action::GetCurrentUser => "GetCurrentUser",
            Action::PullRequestDetailsLoaded(..) => "PullRequestDetailsLoaded",
            Action::PullRequestDetailsLoadError => "PullRequestDetailsLoadError",
            Action::LoadMorePullRequests => "LoadMorePullRequests",
            Action::LoadMorePullRequestsResult(..) => "LoadMorePullRequestsResult",
            Action::Left => "Left",
            Action::Right => "Right",
            Action::ChangeMode(..) => "ChangeMode",
            Action::ExecuteCommand(..) => "ExecuteCommand",
            Action::ExecuteSearch(..) => "ExecuteSearch",
        };
        s.to_owned()
    }
}

} // verus!
