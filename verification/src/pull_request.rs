use vstd::prelude::*;

use crate::text;

verus! {

use vstd::string::StringSliceAdditionalSpecFns;

/// Lifecycle state of a pull request.
#[derive(Clone, Copy, Debug, PartialEq, Eq, Structural)]
pub enum PullRequestState {
    Open,
    Closed,
    Merged,
}

impl PullRequestState {
    /// Rank used when ordering by state; follows the declaration order.
    pub open spec fn rank(self) -> int {
        match self {
            PullRequestState::Open => 0,
            PullRequestState::Closed => 1,
            PullRequestState::Merged => 2,
        }
    }

    /// Executable form of `rank`.
    pub fn rank_value(&self) -> (r: u8)
        ensures
            r == self.rank(),
    {
        match self {
            PullRequestState::Open => 0,
            PullRequestState::Closed => 1,
            PullRequestState::Merged => 2,
        }
    }
}

/// The state a code review on a pull request can be in.
#[derive(Clone, Copy, Debug, PartialEq, Eq, Structural)]
pub enum PullRequestReviewState {
    Approved,
    ChangesRequested,
    Commented,
    Dismissed,
    Pending,
}

/// One review: who gave it and what they decided.
#[derive(Clone, Debug, PartialEq, Eq)]
pub struct PullRequestReview {
    pub author: String,
    pub state: PullRequestReviewState,
}

/// One comment on a pull request.
#[derive(Clone, Debug, PartialEq, Eq)]
pub struct PullRequestComment {
    pub author: String,
    pub body: String,
    /// Milliseconds since the epoch.
    pub created_at: i64,
}

/// A pull request as the dashboard sees it.  Identity is the composite key
/// (repository, number); the surrogate `uuid` only correlates rows across
/// redraws and never takes part in equality.  Timestamps are milliseconds
/// since the epoch.
#[derive(Clone, Debug)]
pub struct PullRequest {
    pub number: usize,
    pub title: String,
    pub repository: String,
    pub created_at: i64,
    pub updated_at: i64,
    pub url: String,
    pub changed_files: usize,
    pub additions: usize,
    pub deletions: usize,
    pub state: PullRequestState,
    pub is_draft: bool,
    pub reviews: Vec<PullRequestReview>,
    pub author: String,
    pub base_branch: String,
    pub body: String,
    pub comments: Vec<PullRequestComment>,
    pub uuid: u128,
}

/// Relies on `uuid::Uuid::new_v4` for a random surrogate id and
/// `Uuid::as_u128` for its raw value; nothing is assumed of the drawn value.
#[verifier::external_body]
fn fresh_uuid() -> u128 {
    uuid::Uuid::new_v4().as_u128()
}

impl PullRequest {
    /// Two pull requests denote the same remote entity exactly when their
    /// composite keys agree.
    pub open spec fn same_key(self, other: PullRequest) -> bool {
        self.number == other.number && self.repository@ == other.repository@
    }

    /// A fresh pull request with the given key fields and timestamps; the
    /// remaining fields start empty, the state open, and the surrogate id is
    /// drawn at random.
    pub fn new(
        number: usize,
        repository: String,
        title: String,
        author: String,
        created_at: i64,
        updated_at: i64,
    ) -> (pr: PullRequest)
        ensures
            pr.number == number,
            pr.repository == repository,
            pr.title == title,
            pr.author == author,
            pr.created_at == created_at,
            pr.updated_at == updated_at,
            pr.url@ == Seq::<char>::empty(),
            pr.changed_files == 0,
            pr.additions == 0,
            pr.deletions == 0,
            pr.state == PullRequestState::Open,
            !pr.is_draft,
            pr.reviews@ == Seq::<PullRequestReview>::empty(),
            pr.base_branch@ == Seq::<char>::empty(),
            pr.body@ == Seq::<char>::empty(),
            pr.comments@ == Seq::<PullRequestComment>::empty(),
    {
        PullRequest {
            number,
            title,
            repository,
            created_at,
            updated_at,
            url: String::new(),
            changed_files: 0,
            additions: 0,
            deletions: 0,
            state: PullRequestState::Open,
            is_draft: false,
            reviews: Vec::new(),
            author,
            base_branch: String::new(),
            body: String::new(),
            comments: Vec::new(),
            uuid: fresh_uuid(),
        }
    }

    /// The surrogate row id.
    pub fn get_uuid(&self) -> (id: u128)
        ensures
            id == self.uuid,
    {
        self.uuid
    }

    /// A field-for-field copy: every scalar and string field agrees, and
    /// the review and comment lists hold the same entries.
    pub open spec fn is_copy_of(self, other: PullRequest) -> bool {
        &&& self.number == other.number
        &&& self.title == other.title
        &&& self.repository == other.repository
        &&& self.created_at == other.created_at
        &&& self.updated_at == other.updated_at
        &&& self.url == other.url
        &&& self.changed_files == other.changed_files
        &&& self.additions == other.additions
        &&& self.deletions == other.deletions
        &&& self.state == other.state
        &&& self.is_draft == other.is_draft
        &&& self.reviews@ == other.reviews@
        &&& self.author == other.author
        &&& self.base_branch == other.base_branch
        &&& self.body == other.body
        &&& self.comments@ == other.comments@
        &&& self.uuid == other.uuid
    }

    /// Whether the search text occurs in the title, the author or the
    /// repository, compared on bytes.
    pub open spec fn matches_search(self, query: Seq<u8>) -> bool {
        ||| crate::text::contains_seq(crate::text::bytes_of(self.title@), query)
        ||| crate::text::contains_seq(crate::text::bytes_of(self.author@), query)
        ||| crate::text::contains_seq(crate::text::bytes_of(self.repository@), query)
    }

    /// The live-search predicate: keep a row whose title, author or
    /// repository contains the search text.
    pub fn filter(&self, search_string: &str) -> (r: bool)
        ensures
            r == self.matches_search(search_string.spec_bytes()),
    {
        crate::text::str_contains(&self.title, search_string) || crate::text::str_contains(
            &self.author,
            search_string,
        ) || crate::text::str_contains(&self.repository, search_string)
    }

    /// A field-for-field copy with the same surrogate id.
    pub fn duplicate(&self) -> (pr: PullRequest)
        ensures
            pr.number == self.number,
            pr.title == self.title,
            pr.repository == self.repository,
            pr.created_at == self.created_at,
            pr.updated_at == self.updated_at,
            pr.url == self.url,
            pr.changed_files == self.changed_files,
            pr.additions == self.additions,
            pr.deletions == self.deletions,
            pr.state == self.state,
            pr.is_draft == self.is_draft,
            pr.reviews@ == self.reviews@,
            pr.author == self.author,
            pr.base_branch == self.base_branch,
            pr.body == self.body,
            pr.comments@ == self.comments@,
            pr.uuid == self.uuid,
            pr.is_copy_of(*self),
            pr.same_key(*self),
    {
        let mut reviews: Vec<PullRequestReview> = Vec::new();
        let mut i: usize = 0;
        while i < self.reviews.len()
            invariant
                i <= self.reviews@.len(),
                reviews@ =~= self.reviews@.take(i as int),
            decreases self.reviews@.len() - i,
        {
            let r = &self.reviews[i];
            reviews.push(PullRequestReview { author: r.author.clone(), state: r.state });
            proof {
                assert(self.reviews@[i as int] == (PullRequestReview {
                    author: self.reviews@[i as int].author,
                    state: self.reviews@[i as int].state,
                }));
            }
            i = i + 1;
        }
        proof {
            assert(self.reviews@.take(i as int) =~= self.reviews@);
        }
        let mut comments: Vec<PullRequestComment> = Vec::new();
        let mut j: usize = 0;
        while j < self.comments.len()
            invariant
                j <= self.comments@.len(),
                comments@ =~= self.comments@.take(j as int),
            decreases self.comments@.len() - j,
        {
            let c = &self.comments[j];
            comments.push(
                PullRequestComment {
                    author: c.author.clone(),
                    body: c.body.clone(),
                    created_at: c.created_at,
                },
            );
            proof {
                assert(self.comments@[j as int] == (PullRequestComment {
                    author: self.comments@[j as int].author,
                    body: self.comments@[j as int].body,
                    created_at: self.comments@[j as int].created_at,
                }));
            }
            j = j + 1;
        }
        proof {
            assert(self.comments@.take(j as int) =~= self.comments@);
        }
        PullRequest {
            number: self.number,
            title: self.title.clone(),
            repository: self.repository.clone(),
            created_at: self.created_at,
            updated_at: self.updated_at,
            url: self.url.clone(),
            changed_files: self.changed_files,
            additions: self.additions,
            deletions: self.deletions,
            state: self.state,
            is_draft: self.is_draft,
            reviews,
            author: self.author.clone(),
            base_branch: self.base_branch.clone(),
            body: self.body.clone(),
            comments,
            uuid: self.uuid,
        }
    }
}

impl PartialEq for PullRequest {
    fn eq(&self, other: &Self) -> (r: bool) {
        self.number == other.number && text::str_eq(&self.repository, &other.repository)
    }
}

impl vstd::std_specs::cmp::PartialEqSpecImpl for PullRequest {
    open spec fn obeys_eq_spec() -> bool {
        true
    }

    open spec fn eq_spec(&self, other: &PullRequest) -> bool {
        self.same_key(*other)
    }
}

} // verus!
