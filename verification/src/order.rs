use vstd::prelude::*;

use crate::pull_request::PullRequest;
use crate::text;
use crate::text::bytes_of;
use crate::text::lex_leq;

verus! {

/// How the item list is ordered: by one of the visible columns, or by the
/// composite identity key (repository, then number) that the merge engine
/// needs before deduplicating.
#[derive(Clone, Copy, Debug, PartialEq, Eq, Structural)]
pub enum SortOrder {
    /// A user-selected column, by its index in the table header.
    Column(usize),
    /// The composite key (repository, number).
    Key,
}

/// `<=` on the composite identity key: repositories in byte order, ties
/// decided by number.
pub open spec fn key_leq(a: PullRequest, b: PullRequest) -> bool {
    if bytes_of(a.repository@) == bytes_of(b.repository@) {
        a.number <= b.number
    } else {
        lex_leq(bytes_of(a.repository@), bytes_of(b.repository@))
    }
}

/// `<=` under a column: numeric columns by value, text columns by byte
/// order, the state column by declaration order; an out-of-range column
/// falls back to the title.  No further key breaks ties: the sort that
/// uses this order is stable, so tied items keep their previous relative
/// order.  A fixed secondary key (the number) would contradict exactly
/// that promise whenever the previous order disagrees with it, so the
/// stable order of arrival is the tie-break.
pub open spec fn column_leq(col: usize, a: PullRequest, b: PullRequest) -> bool {
    if col == 0 {
        a.number <= b.number
    } else if col == 1 {
        lex_leq(bytes_of(a.repository@), bytes_of(b.repository@))
    } else if col == 2 {
        lex_leq(bytes_of(a.title@), bytes_of(b.title@))
    } else if col == 3 {
        lex_leq(bytes_of(a.author@), bytes_of(b.author@))
    } else if col == 4 {
        a.created_at <= b.created_at
    } else if col == 5 {
        a.updated_at <= b.updated_at
    } else if col == 6 {
        a.additions + a.deletions <= b.additions + b.deletions
    } else if col == 7 {
        a.state.rank() <= b.state.rank()
    } else {
        lex_leq(bytes_of(a.title@), bytes_of(b.title@))
    }
}

impl SortOrder {
    /// The `<=` relation this order denotes.
    pub open spec fn leq(self, a: PullRequest, b: PullRequest) -> bool {
        match self {
            SortOrder::Column(col) => column_leq(col, a, b),
            SortOrder::Key => key_leq(a, b),
        }
    }

    /// Two items the order cannot tell apart.
    pub open spec fn tied(self, a: PullRequest, b: PullRequest) -> bool {
        self.leq(a, b) && self.leq(b, a)
    }
}

/// Every sort order is total: any two items are comparable.
pub proof fn lemma_order_total(o: SortOrder, a: PullRequest, b: PullRequest)
    ensures
        o.leq(a, b) || o.leq(b, a),
{
    match o {
        SortOrder::Column(col) => {
            if col == 1 {
                text::lemma_lex_leq_total(bytes_of(a.repository@), bytes_of(b.repository@));
            } else if col == 2 || col >= 8 {
                text::lemma_lex_leq_total(bytes_of(a.title@), bytes_of(b.title@));
            } else if col == 3 {
                text::lemma_lex_leq_total(bytes_of(a.author@), bytes_of(b.author@));
            }
        },
        SortOrder::Key => {
            text::lemma_lex_leq_total(bytes_of(a.repository@), bytes_of(b.repository@));
        },
    }
}

/// Every sort order is transitive.
pub proof fn lemma_order_trans(o: SortOrder, a: PullRequest, b: PullRequest, c: PullRequest)
    requires
        o.leq(a, b),
        o.leq(b, c),
    ensures
        o.leq(a, c),
{
    match o {
        SortOrder::Column(col) => {
            if col == 1 {
                text::lemma_lex_leq_trans(
                    bytes_of(a.repository@),
                    bytes_of(b.repository@),
                    bytes_of(c.repository@),
                );
            } else if col == 2 || col >= 8 {
                text::lemma_lex_leq_trans(
                    bytes_of(a.title@),
                    bytes_of(b.title@),
                    bytes_of(c.title@),
                );
            } else if col == 3 {
                text::lemma_lex_leq_trans(
                    bytes_of(a.author@),
                    bytes_of(b.author@),
                    bytes_of(c.author@),
                );
            }
        },
        SortOrder::Key => {
            let ra = bytes_of(a.repository@);
            let rb = bytes_of(b.repository@);
            let rc = bytes_of(c.repository@);
            if ra == rb && rb == rc {
            } else if ra == rb {
            } else if rb == rc {
            } else if ra == rc {
                text::lemma_lex_leq_antisym(ra, rb);
            } else {
                text::lemma_lex_leq_trans(ra, rb, rc);
            }
        },
    }
}

/// Items tied under the composite key share the key itself.
pub proof fn lemma_key_tied_is_same_key(a: PullRequest, b: PullRequest)
    ensures
        SortOrder::Key.tied(a, b) <==> a.same_key(b),
{
    let ra = bytes_of(a.repository@);
    let rb = bytes_of(b.repository@);
    if SortOrder::Key.tied(a, b) {
        if ra != rb {
            text::lemma_lex_leq_antisym(ra, rb);
        }
        text::lemma_bytes_of_injective(a.repository@, b.repository@);
    }
}

/// Executable comparison under a sort order.
pub fn pr_leq(o: &SortOrder, a: &PullRequest, b: &PullRequest) -> (r: bool)
    ensures
        r == o.leq(*a, *b),
{
    match o {
        SortOrder::Column(col) => {
            if *col == 0 {
                a.number <= b.number
            } else if *col == 1 {
                text::str_leq(&a.repository, &b.repository)
            } else if *col == 2 {
                text::str_leq(&a.title, &b.title)
            } else if *col == 3 {
                text::str_leq(&a.author, &b.author)
            } else if *col == 4 {
                a.created_at <= b.created_at
            } else if *col == 5 {
                a.updated_at <= b.updated_at
            } else if *col == 6 {
                a.additions as u128 + a.deletions as u128 <= b.additions as u128
                    + b.deletions as u128
            } else if *col == 7 {
                a.state.rank_value() <= b.state.rank_value()
            } else {
                text::str_leq(&a.title, &b.title)
            }
        },
        SortOrder::Key => {
            if text::str_eq(&a.repository, &b.repository) {
                proof {
                    assert(bytes_of(a.repository@) == bytes_of(b.repository@));
                }
                a.number <= b.number
            } else {
                proof {
                    text::lemma_bytes_of_injective(a.repository@, b.repository@);
                }
                text::str_leq(&a.repository, &b.repository)
            }
        },
    }
}

/// Executable test for the composite key.
pub fn pr_same_key(a: &PullRequest, b: &PullRequest) -> (r: bool)
    ensures
        r == a.same_key(*b),
{
    a.number == b.number && text::str_eq(&a.repository, &b.repository)
}

} // verus!
