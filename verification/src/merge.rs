use vstd::prelude::*;

use crate::order;
use crate::order::SortOrder;
use crate::pull_request::PullRequest;

verus! {

/// Where `x` goes when inserted into `s` from the right: past every trailing
/// element strictly greater than `x`, and not past one that compares `<=`.
pub open spec fn insert_pos(o: SortOrder, s: Seq<PullRequest>, x: PullRequest) -> int
    decreases s.len(),
{
    if s.len() > 0 && !o.leq(s.last(), x) {
        insert_pos(o, s.drop_last(), x)
    } else {
        s.len() as int
    }
}

/// `s` with `x` inserted at `insert_pos`: the step of a stable insertion
/// sort.
pub open spec fn insert_sorted(o: SortOrder, s: Seq<PullRequest>, x: PullRequest) -> Seq<
    PullRequest,
> {
    s.insert(insert_pos(o, s, x), x)
}

/// The stable sort of `s` under `o`: every element inserted in turn, each
/// going after all earlier elements it is tied with.
pub open spec fn stable_sort(o: SortOrder, s: Seq<PullRequest>) -> Seq<PullRequest>
    decreases s.len(),
{
    if s.len() == 0 {
        s
    } else {
        insert_sorted(o, stable_sort(o, s.drop_last()), s.last())
    }
}

/// Adjacent deduplication by composite key, keeping the first entry of each
/// run: an entry is dropped exactly when it shares its key with the last
/// entry kept before it.
pub open spec fn dedup_adjacent(s: Seq<PullRequest>) -> Seq<PullRequest>
    decreases s.len(),
{
    if s.len() == 0 {
        s
    } else {
        let d = dedup_adjacent(s.drop_last());
        if d.len() > 0 && s.last().same_key(d.last()) {
            d
        } else {
            d.push(s.last())
        }
    }
}

/// What merging one fetched page into the list yields: append, stable-sort
/// by the composite key, and drop adjacent duplicates.  The sort must come
/// first: deduplicating an unsorted list would miss distant duplicates.
pub open spec fn merge_pages(list: Seq<PullRequest>, page: Seq<PullRequest>) -> Seq<PullRequest> {
    dedup_adjacent(stable_sort(SortOrder::Key, list + page))
}

/// `s` is sorted under `o`: any earlier element compares `<=` to any later
/// one.
pub open spec fn sorted_by_order(o: SortOrder, s: Seq<PullRequest>) -> bool {
    forall|i: int, j: int| 0 <= i <= j < s.len() ==> #[trigger] o.leq(s[i], s[j])
}

/// The subsequence of elements tied with `w` under `o`, in their original
/// order.  A stable sort leaves this subsequence untouched.
pub open spec fn tied_subseq(o: SortOrder, s: Seq<PullRequest>, w: PullRequest) -> Seq<PullRequest>
    decreases s.len(),
{
    if s.len() == 0 {
        s
    } else {
        let r = tied_subseq(o, s.drop_last(), w);
        if o.tied(s.last(), w) {
            r.push(s.last())
        } else {
            r
        }
    }
}

/// Whether some entry of `s` carries the same composite key as `pr`.
pub open spec fn has_key(s: Seq<PullRequest>, pr: PullRequest) -> bool {
    exists|i: int| 0 <= i < s.len() && (#[trigger] s[i]).same_key(pr)
}

/// Everything `insert_pos` promises: it is a valid index, the element to
/// its left (if any) compares `<=`, and everything from it on is strictly
/// greater.
pub proof fn lemma_insert_pos_props(o: SortOrder, s: Seq<PullRequest>, x: PullRequest)
    ensures
        0 <= insert_pos(o, s, x) <= s.len(),
        insert_pos(o, s, x) > 0 ==> o.leq(s[insert_pos(o, s, x) - 1], x),
        forall|j: int| insert_pos(o, s, x) <= j < s.len() ==> !o.leq(#[trigger] s[j], x),
    decreases s.len(),
{
    if s.len() > 0 && !o.leq(s.last(), x) {
        lemma_insert_pos_props(o, s.drop_last(), x);
        assert forall|j: int| insert_pos(o, s, x) <= j < s.len() implies !o.leq(
            #[trigger] s[j],
            x,
        ) by {
            if j < s.len() - 1 {
                assert(s.drop_last()[j] == s[j]);
            }
        }
        if insert_pos(o, s, x) > 0 {
            assert(s.drop_last()[insert_pos(o, s, x) - 1] == s[insert_pos(o, s, x) - 1]);
        }
    }
}

/// Insert `x` into the sorted vector `v` at its stable position.
fn sorted_insert(v: &mut Vec<PullRequest>, x: PullRequest, o: &SortOrder)
    ensures
        final(v)@ == insert_sorted(*o, old(v)@, x),
{
    let mut p = v.len();
    proof {
        assert(old(v)@.take(p as int) =~= old(v)@);
    }
    while p > 0 && !order::pr_leq(o, &v[p - 1], &x)
        invariant
            v@ == old(v)@,
            p <= v@.len(),
            insert_pos(*o, v@, x) == insert_pos(*o, v@.take(p as int), x),
        decreases p,
    {
        proof {
            assert(v@.take(p as int).last() == v@[p as int - 1]);
            assert(v@.take(p as int).drop_last() =~= v@.take(p as int - 1));
        }
        p = p - 1;
    }
    proof {
        if p > 0 {
            assert(v@.take(p as int).last() == v@[p as int - 1]);
        }
        assert(insert_pos(*o, v@.take(p as int), x) == p);
    }
    v.insert(p, x);
}

/// Sort the list under `o` with a stable insertion sort.
pub fn sort_pull_requests_by(v: &mut Vec<PullRequest>, o: &SortOrder)
    ensures
        final(v)@ == stable_sort(*o, old(v)@),
{
    let ghost orig = v@;
    let orig_len = v.len();
    let mut out: Vec<PullRequest> = Vec::new();
    let mut taken: usize = 0;
    proof {
        assert(orig.take(0) =~= Seq::<PullRequest>::empty());
    }
    while v.len() > 0
        invariant
            taken <= orig_len,
            orig.len() == orig_len,
            taken + v@.len() == orig.len(),
            v@ =~= orig.skip(taken as int),
            out@ == stable_sort(*o, orig.take(taken as int)),
        decreases v@.len(),
    {
        let x = v.remove(0);
        proof {
            assert(orig.skip(taken as int).remove(0) =~= orig.skip(taken as int + 1));
            assert(orig.take(taken as int + 1).drop_last() =~= orig.take(taken as int));
            assert(orig.take(taken as int + 1).last() == x);
        }
        sorted_insert(&mut out, x, o);
        taken = taken + 1;
    }
    proof {
        assert(orig.take(taken as int) =~= orig);
    }
    *v = out;
}

/// Drop adjacent entries that repeat the key of the last kept entry.  Only
/// meaningful on a list sorted by the composite key, where it removes every
/// duplicate.
pub fn dedup_by_key(v: &mut Vec<PullRequest>)
    ensures
        final(v)@ == dedup_adjacent(old(v)@),
{
    let ghost orig = v@;
    let orig_len = v.len();
    let mut out: Vec<PullRequest> = Vec::new();
    let mut taken: usize = 0;
    proof {
        assert(orig.take(0) =~= Seq::<PullRequest>::empty());
    }
    while v.len() > 0
        invariant
            taken <= orig_len,
            orig.len() == orig_len,
            taken + v@.len() == orig.len(),
            v@ =~= orig.skip(taken as int),
            out@ == dedup_adjacent(orig.take(taken as int)),
        decreases v@.len(),
    {
        let x = v.remove(0);
        proof {
            assert(orig.skip(taken as int).remove(0) =~= orig.skip(taken as int + 1));
            assert(orig.take(taken as int + 1).drop_last() =~= orig.take(taken as int));
            assert(orig.take(taken as int + 1).last() == x);
        }
        if out.len() == 0 {
            out.push(x);
        } else {
            let keep = !order::pr_same_key(&x, &out[out.len() - 1]);
            if keep {
                out.push(x);
            }
        }
        taken = taken + 1;
    }
    proof {
        assert(orig.take(taken as int) =~= orig);
    }
    *v = out;
}

/// Merge one fetched page into the shared list: append the new items, sort
/// the whole list by the composite key, and deduplicate.  A duplicate keeps
/// its first-seen entry, so an item already in the list survives a repeated
/// fetch unchanged.
pub fn merge_page(list: &mut Vec<PullRequest>, page: Vec<PullRequest>)
    ensures
        final(list)@ == merge_pages(old(list)@, page@),
{
    let mut page = page;
    list.append(&mut page);
    sort_pull_requests_by(list, &SortOrder::Key);
    dedup_by_key(list);
}

/// One stable insertion keeps the list sorted.
proof fn lemma_insert_sorted_sorted(o: SortOrder, s: Seq<PullRequest>, x: PullRequest)
    requires
        sorted_by_order(o, s),
    ensures
        sorted_by_order(o, insert_sorted(o, s, x)),
{
    let p = insert_pos(o, s, x);
    let t = insert_sorted(o, s, x);
    lemma_insert_pos_props(o, s, x);
    s.insert_ensures(p, x);
    assert forall|i: int, j: int| 0 <= i <= j < t.len() implies #[trigger] o.leq(t[i], t[j]) by {
        if j < p {
            assert(o.leq(s[i], s[j]));
        } else if i < p && j == p {
            assert(o.leq(s[p - 1], x));
            assert(o.leq(s[i], s[p - 1]));
            order::lemma_order_trans(o, s[i], s[p - 1], x);
        } else if i < p {
            assert(t[j] == s[j - 1]);
            assert(o.leq(s[i], s[j - 1]));
        } else if i == p && j == p {
            order::lemma_order_total(o, x, x);
        } else if i == p {
            assert(t[j] == s[j - 1]);
            assert(!o.leq(s[j - 1], x));
            order::lemma_order_total(o, x, s[j - 1]);
        } else {
            assert(t[i] == s[i - 1]);
            assert(t[j] == s[j - 1]);
            assert(o.leq(s[i - 1], s[j - 1]));
        }
    }
}

/// The stable sort sorts.
pub proof fn lemma_stable_sort_sorted(o: SortOrder, s: Seq<PullRequest>)
    ensures
        sorted_by_order(o, stable_sort(o, s)),
    decreases s.len(),
{
    if s.len() > 0 {
        lemma_stable_sort_sorted(o, s.drop_last());
        lemma_insert_sorted_sorted(o, stable_sort(o, s.drop_last()), s.last());
    }
}

/// One stable insertion adds exactly its element.
proof fn lemma_insert_sorted_multiset(o: SortOrder, s: Seq<PullRequest>, x: PullRequest)
    ensures
        insert_sorted(o, s, x).to_multiset() == s.to_multiset().insert(x),
{
    let p = insert_pos(o, s, x);
    lemma_insert_pos_props(o, s, x);
    let front = s.subrange(0, p);
    let back = s.subrange(p, s.len() as int);
    vstd::seq_lib::lemma_multiset_commutative(front.push(x), back);
    vstd::seq_lib::lemma_multiset_commutative(front, back);
    assert(s =~= front + back);
    front.to_multiset_ensures();
    assert(front.push(x).to_multiset() =~= front.to_multiset().insert(x));
    assert(insert_sorted(o, s, x).to_multiset() =~= s.to_multiset().insert(x));
}

/// The stable sort only reorders: the multiset of items is unchanged.
pub proof fn lemma_stable_sort_multiset(o: SortOrder, s: Seq<PullRequest>)
    ensures
        stable_sort(o, s).to_multiset() == s.to_multiset(),
    decreases s.len(),
{
    if s.len() > 0 {
        lemma_stable_sort_multiset(o, s.drop_last());
        lemma_insert_sorted_multiset(o, stable_sort(o, s.drop_last()), s.last());
        assert(s.drop_last().push(s.last()) =~= s);
        s.drop_last().to_multiset_ensures();
        assert(s.drop_last().push(s.last()).to_multiset() =~= s.drop_last().to_multiset().insert(
            s.last(),
        ));
    }
}

/// The tied subsequence distributes over concatenation.
proof fn lemma_tied_subseq_add(o: SortOrder, a: Seq<PullRequest>, b: Seq<PullRequest>, w: PullRequest)
    ensures
        tied_subseq(o, a + b, w) == tied_subseq(o, a, w) + tied_subseq(o, b, w),
    decreases b.len(),
{
    if b.len() == 0 {
        assert(a + b =~= a);
        assert(tied_subseq(o, b, w) =~= Seq::<PullRequest>::empty());
        assert(tied_subseq(o, a, w) + tied_subseq(o, b, w) =~= tied_subseq(o, a, w));
    } else {
        lemma_tied_subseq_add(o, a, b.drop_last(), w);
        assert((a + b).drop_last() =~= a + b.drop_last());
        assert((a + b).last() == b.last());
        if o.tied(b.last(), w) {
            assert(tied_subseq(o, a, w) + tied_subseq(o, b.drop_last(), w).push(b.last()) =~= (
            tied_subseq(o, a, w) + tied_subseq(o, b.drop_last(), w)).push(b.last()));
        }
    }
}

/// A stretch with no element tied to `w` contributes nothing.
proof fn lemma_tied_subseq_none(o: SortOrder, s: Seq<PullRequest>, w: PullRequest)
    requires
        forall|i: int| 0 <= i < s.len() ==> !o.tied(#[trigger] s[i], w),
    ensures
        tied_subseq(o, s, w) == Seq::<PullRequest>::empty(),
    decreases s.len(),
{
    if s.len() > 0 {
        assert forall|i: int| 0 <= i < s.drop_last().len() implies !o.tied(
            #[trigger] s.drop_last()[i],
            w,
        ) by {
            assert(s.drop_last()[i] == s[i]);
        }
        lemma_tied_subseq_none(o, s.drop_last(), w);
        assert(!o.tied(s[s.len() - 1], w));
    }
}

/// A stable insertion appends the new element to its tie class and leaves
/// every other class unchanged.
proof fn lemma_insert_sorted_tied(
    o: SortOrder,
    s: Seq<PullRequest>,
    x: PullRequest,
    w: PullRequest,
)
    ensures
        tied_subseq(o, insert_sorted(o, s, x), w) == if o.tied(x, w) {
            tied_subseq(o, s, w).push(x)
        } else {
            tied_subseq(o, s, w)
        },
{
    let p = insert_pos(o, s, x);
    lemma_insert_pos_props(o, s, x);
    let front = s.subrange(0, p);
    let back = s.subrange(p, s.len() as int);
    let single = seq![x];
    assert(insert_sorted(o, s, x) =~= front + (single + back));
    assert(s =~= front + back);
    lemma_tied_subseq_add(o, front, single + back, w);
    lemma_tied_subseq_add(o, single, back, w);
    lemma_tied_subseq_add(o, front, back, w);
    assert(single.drop_last() =~= Seq::<PullRequest>::empty());
    assert(single.last() == x);
    assert(tied_subseq(o, single.drop_last(), w) =~= Seq::<PullRequest>::empty());
    if o.tied(x, w) {
        assert forall|i: int| 0 <= i < back.len() implies !o.tied(#[trigger] back[i], w) by {
            assert(back[i] == s[p + i]);
            assert(!o.leq(s[p + i], x));
            if o.tied(back[i], w) {
                order::lemma_order_trans(o, s[p + i], w, x);
            }
        }
        lemma_tied_subseq_none(o, back, w);
        assert(tied_subseq(o, single, w) =~= Seq::<PullRequest>::empty().push(x));
        assert(tied_subseq(o, insert_sorted(o, s, x), w) =~= tied_subseq(o, s, w).push(x));
    } else {
        assert(tied_subseq(o, single, w) =~= Seq::<PullRequest>::empty());
        assert(tied_subseq(o, insert_sorted(o, s, x), w) =~= tied_subseq(o, s, w));
    }
}

/// The sort is stable: for any pivot `w`, the elements tied with `w` keep
/// exactly the relative order they had before sorting.  In particular two
/// items with the same value in the sorted column stay in their previous
/// order.
pub proof fn lemma_stable_sort_stable(o: SortOrder, s: Seq<PullRequest>, w: PullRequest)
    ensures
        tied_subseq(o, stable_sort(o, s), w) == tied_subseq(o, s, w),
    decreases s.len(),
{
    if s.len() > 0 {
        lemma_stable_sort_stable(o, s.drop_last(), w);
        lemma_insert_sorted_tied(o, stable_sort(o, s.drop_last()), s.last(), w);
    }
}

/// Everything deduplication guarantees on a key-sorted list: the result is
/// still sorted, no two entries share a key, every entry comes from the
/// input, every input key is represented, and the last run is represented
/// by its last entry's key.
proof fn lemma_dedup_props(s: Seq<PullRequest>)
    requires
        sorted_by_order(SortOrder::Key, s),
    ensures
        sorted_by_order(SortOrder::Key, dedup_adjacent(s)),
        forall|i: int, j: int|
            0 <= i < j < dedup_adjacent(s).len() ==> !(#[trigger] dedup_adjacent(s)[i].same_key(
                dedup_adjacent(s)[j],
            )),
        forall|i: int| 0 <= i < dedup_adjacent(s).len() ==> s.contains(#[trigger] dedup_adjacent(s)[i]),
        forall|i: int| 0 <= i < s.len() ==> has_key(dedup_adjacent(s), #[trigger] s[i]),
        s.len() > 0 ==> dedup_adjacent(s).len() > 0 && dedup_adjacent(s).last().same_key(s.last()),
    decreases s.len(),
{
    if s.len() == 0 {
        return ;
    }
    let key = SortOrder::Key;
    let dl = s.drop_last();
    let x = s.last();
    let d0 = dedup_adjacent(dl);
    let d = dedup_adjacent(s);
    assert forall|i: int, j: int| 0 <= i <= j < dl.len() implies #[trigger] key.leq(dl[i], dl[j]) by {
        assert(dl[i] == s[i]);
        assert(dl[j] == s[j]);
        assert(key.leq(s[i], s[j]));
    }
    lemma_dedup_props(dl);
    // every kept element of the shorter list compares <= the new last element
    assert forall|i: int| 0 <= i < d0.len() implies #[trigger] key.leq(d0[i], x) by {
        assert(dl.contains(d0[i]));
        let k = choose|k: int| 0 <= k < dl.len() && dl[k] == d0[i];
        assert(s[k] == d0[i]);
        assert(key.leq(s[k], s[s.len() - 1]));
    }
    if d0.len() > 0 && x.same_key(d0.last()) {
        assert(d == d0);
        assert forall|i: int| 0 <= i < d.len() implies s.contains(#[trigger] d[i]) by {
            assert(dl.contains(d0[i]));
            let k = choose|k: int| 0 <= k < dl.len() && dl[k] == d0[i];
            assert(s[k] == d[i]);
        }
        assert forall|i: int| 0 <= i < s.len() implies has_key(d, #[trigger] s[i]) by {
            if i < s.len() - 1 {
                assert(has_key(d0, dl[i]));
                assert(dl[i] == s[i]);
            } else {
                assert(d0[d0.len() - 1].same_key(x));
            }
        }
        assert(d.last().same_key(dl.last()));
        assert(d.last().same_key(s.last()));
    } else {
        assert(d == d0.push(x));
        // the new entry's key is fresh among the kept entries
        assert forall|i: int| 0 <= i < d0.len() implies !(#[trigger] d0[i].same_key(x)) by {
            if d0[i].same_key(x) {
                order::lemma_key_tied_is_same_key(d0[i], x);
                assert(key.leq(x, d0[i]));
                assert(key.leq(d0[i], d0[d0.len() - 1]));
                order::lemma_order_trans(key, x, d0[i], d0[d0.len() - 1]);
                assert(key.leq(d0[d0.len() - 1], x));
                order::lemma_key_tied_is_same_key(d0.last(), x);
                assert(x.same_key(d0.last()));
            }
        }
        assert forall|i: int, j: int| 0 <= i <= j < d.len() implies #[trigger] key.leq(d[i], d[j]) by {
            if j < d0.len() {
                assert(d[i] == d0[i]);
                assert(d[j] == d0[j]);
                assert(key.leq(d0[i], d0[j]));
            } else if i < d0.len() {
                assert(d[i] == d0[i]);
                assert(key.leq(d0[i], x));
            } else {
                order::lemma_order_total(key, x, x);
            }
        }
        assert forall|i: int, j: int| 0 <= i < j < d.len() implies !(#[trigger] d[i].same_key(
            d[j],
        )) by {
            if j < d0.len() {
                assert(d[i] == d0[i]);
                assert(d[j] == d0[j]);
                assert(!d0[i].same_key(d0[j]));
            } else {
                assert(d[i] == d0[i]);
                assert(d[j] == x);
                assert(!d0[i].same_key(x));
            }
        }
        assert forall|i: int| 0 <= i < d.len() implies s.contains(#[trigger] d[i]) by {
            if i < d0.len() {
                assert(dl.contains(d0[i]));
                let k = choose|k: int| 0 <= k < dl.len() && dl[k] == d0[i];
                assert(s[k] == d[i]);
            } else {
                assert(s[s.len() - 1] == d[i]);
            }
        }
        assert forall|i: int| 0 <= i < s.len() implies has_key(d, #[trigger] s[i]) by {
            if i < s.len() - 1 {
                assert(has_key(d0, dl[i]));
                let j = choose|j: int| 0 <= j < d0.len() && d0[j].same_key(dl[i]);
                assert(d[j] == d0[j]);
                assert(d[j].same_key(s[i]));
            } else {
                assert(d[d.len() - 1].same_key(s[i]));
            }
        }
    }
}

/// After a merge no two entries share a composite key.  In particular,
/// feeding the same page twice (a duplicated network response) still leaves
/// no duplicate (repository, number) pair.
pub proof fn lemma_merge_distinct_keys(
    list: Seq<PullRequest>,
    page: Seq<PullRequest>,
    i: int,
    j: int,
)
    requires
        0 <= i < j < merge_pages(list, page).len(),
    ensures
        !merge_pages(list, page)[i].same_key(merge_pages(list, page)[j]),
{
    lemma_stable_sort_sorted(SortOrder::Key, list + page);
    lemma_dedup_props(stable_sort(SortOrder::Key, list + page));
}

/// The merged list is sorted by the composite key.
pub proof fn lemma_merge_sorted(list: Seq<PullRequest>, page: Seq<PullRequest>)
    ensures
        sorted_by_order(SortOrder::Key, merge_pages(list, page)),
{
    lemma_stable_sort_sorted(SortOrder::Key, list + page);
    lemma_dedup_props(stable_sort(SortOrder::Key, list + page));
}

/// A merge keeps exactly the keys of the old list and of the page: none is
/// lost, none appears from nowhere.
pub proof fn lemma_merge_has_key(list: Seq<PullRequest>, page: Seq<PullRequest>, pr: PullRequest)
    ensures
        has_key(merge_pages(list, page), pr) <==> (has_key(list, pr) || has_key(page, pr)),
{
    let all = list + page;
    let sorted = stable_sort(SortOrder::Key, all);
    let d = merge_pages(list, page);
    lemma_stable_sort_sorted(SortOrder::Key, all);
    lemma_stable_sort_multiset(SortOrder::Key, all);
    lemma_dedup_props(sorted);
    sorted.to_multiset_ensures();
    all.to_multiset_ensures();
    assert(has_key(all, pr) <==> (has_key(list, pr) || has_key(page, pr))) by {
        if has_key(all, pr) {
            let i = choose|i: int| 0 <= i < all.len() && all[i].same_key(pr);
            if i < list.len() {
                assert(list[i].same_key(pr));
            } else {
                assert(page[i - list.len()].same_key(pr));
            }
        }
        if has_key(list, pr) {
            let i = choose|i: int| 0 <= i < list.len() && list[i].same_key(pr);
            assert(all[i].same_key(pr));
        }
        if has_key(page, pr) {
            let i = choose|i: int| 0 <= i < page.len() && page[i].same_key(pr);
            assert(all[list.len() + i].same_key(pr));
        }
    }
    assert(has_key(sorted, pr) <==> has_key(all, pr)) by {
        if has_key(sorted, pr) {
            let i = choose|i: int| 0 <= i < sorted.len() && sorted[i].same_key(pr);
            assert(sorted.contains(sorted[i]));
            assert(sorted.to_multiset().count(sorted[i]) == all.to_multiset().count(sorted[i]));
            assert(all.contains(sorted[i]));
            let j = choose|j: int| 0 <= j < all.len() && all[j] == sorted[i];
            assert(all[j].same_key(pr));
        }
        if has_key(all, pr) {
            let i = choose|i: int| 0 <= i < all.len() && all[i].same_key(pr);
            assert(all.contains(all[i]));
            assert(sorted.to_multiset().count(all[i]) == all.to_multiset().count(all[i]));
            assert(sorted.contains(all[i]));
            let j = choose|j: int| 0 <= j < sorted.len() && sorted[j] == all[i];
            assert(sorted[j].same_key(pr));
        }
    }
    assert(has_key(d, pr) <==> has_key(sorted, pr)) by {
        if has_key(d, pr) {
            let i = choose|i: int| 0 <= i < d.len() && d[i].same_key(pr);
            assert(sorted.contains(d[i]));
            let j = choose|j: int| 0 <= j < sorted.len() && sorted[j] == d[i];
            assert(sorted[j].same_key(pr));
        }
        if has_key(sorted, pr) {
            let i = choose|i: int| 0 <= i < sorted.len() && sorted[i].same_key(pr);
            assert(has_key(d, sorted[i]));
            let j = choose|j: int| 0 <= j < d.len() && d[j].same_key(sorted[i]);
            assert(d[j].same_key(pr));
        }
    }
}

/// Merging the same page a second time adds nothing: the keys after the
/// repeated merge are exactly those after the first.
pub proof fn lemma_merge_idempotent_keys(
    list: Seq<PullRequest>,
    page: Seq<PullRequest>,
    pr: PullRequest,
)
    ensures
        has_key(merge_pages(merge_pages(list, page), page), pr) <==> has_key(
            merge_pages(list, page),
            pr,
        ),
{
    lemma_merge_has_key(merge_pages(list, page), page, pr);
    lemma_merge_has_key(list, page, pr);
}

} // verus!
