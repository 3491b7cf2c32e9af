use vstd::prelude::*;

use crate::action::Action;

verus! {

/// Most dispatches of one kind tolerated inside the sliding window.
pub const MAX_ACTIONS_PER_WINDOW: usize = 50;

/// Width of the sliding window, in milliseconds.
pub const WINDOW_DURATION_MS: u64 = 2000;

/// The fatal diagnostic: one action kind exceeded the dispatch threshold
/// inside the window.  This signals a defect in the dispatch wiring itself,
/// so the caller must halt rather than continue a broken feedback loop.
#[derive(Debug, Clone, PartialEq, Eq)]
pub struct BreakerTrip {
    /// Numeric tag of the offending kind.
    pub kind: u64,
    /// Its name, for the diagnostic.
    pub kind_name: String,
    /// How many dispatches of the kind the window now holds.
    pub count: usize,
}

/// A dispatch stamp still counts as inside the window at `now_ms` when its
/// age is at most the window width; a stamp in the future also counts.
pub open spec fn stamp_in_window(stamp_ms: u64, now_ms: u64) -> bool {
    now_ms <= stamp_ms || now_ms - stamp_ms <= WINDOW_DURATION_MS
}

/// The (kind, stamp) pairs still inside the window at `now_ms`, in order.
pub open spec fn live_stamps(s: Seq<(u64, u64)>, now_ms: u64) -> Seq<(u64, u64)>
    decreases s.len(),
{
    if s.len() == 0 {
        Seq::empty()
    } else {
        let rest = live_stamps(s.drop_last(), now_ms);
        if stamp_in_window(s.last().1, now_ms) {
            rest.push(s.last())
        } else {
            rest
        }
    }
}

/// How many stamps of the given kind the sequence holds.
pub open spec fn count_of(s: Seq<(u64, u64)>, kind: u64) -> nat
    decreases s.len(),
{
    if s.len() == 0 {
        0
    } else {
        count_of(s.drop_last(), kind) + if s.last().0 == kind {
            1nat
        } else {
            0nat
        }
    }
}

/// The stamp store after one dispatch of `kind` at `now_ms`: an exempt kind
/// leaves it untouched, any other kind purges the expired stamps and records
/// a fresh one.
pub open spec fn breaker_step(
    stamps: Seq<(u64, u64)>,
    exempt: Set<u64>,
    kind: u64,
    now_ms: u64,
) -> Seq<(u64, u64)> {
    if exempt.contains(kind) {
        stamps
    } else {
        live_stamps(stamps, now_ms).push((kind, now_ms))
    }
}

/// Whether one dispatch of `kind` at `now_ms` trips the breaker: only a
/// non-exempt kind can, and only when the freshly recorded stamp pushes its
/// in-window count past the threshold.
pub open spec fn breaker_trips(
    stamps: Seq<(u64, u64)>,
    exempt: Set<u64>,
    kind: u64,
    now_ms: u64,
) -> bool {
    &&& !exempt.contains(kind)
    &&& count_of(live_stamps(stamps, now_ms), kind) + 1 > MAX_ACTIONS_PER_WINDOW
}

/// The stamp store after a whole run of dispatches of one kind, at the given
/// times, in order.
pub open spec fn breaker_run(
    stamps: Seq<(u64, u64)>,
    exempt: Set<u64>,
    kind: u64,
    times: Seq<u64>,
) -> Seq<(u64, u64)>
    decreases times.len(),
{
    if times.len() == 0 {
        stamps
    } else {
        breaker_step(breaker_run(stamps, exempt, kind, times.drop_last()), exempt, kind, times.last())
    }
}

/// The default exemption list: kinds that legitimately fire at high
/// frequency and are never rate-checked.
pub open spec fn default_exempt(kind: u64) -> bool {
    ||| kind == Action::Render.kind()
    ||| kind == Action::Tick.kind()
    ||| kind == Action::Up.kind()
    ||| kind == Action::Down.kind()
    ||| kind == Action::Left.kind()
    ||| kind == Action::Right.kind()
}

/// Sliding-window rate monitor over dispatched actions.  It keeps, per
/// action kind, the dispatch stamps of the last two seconds, and reports a
/// fatal trip when one kind is dispatched more than the threshold allows.
pub struct CircuitBreaker {
    action_timestamps: Vec<(u64, u64)>,
    excluded_actions: Vec<u64>,
}

impl CircuitBreaker {
    /// The recorded (kind, stamp) pairs, oldest first.
    pub closed spec fn stamps(&self) -> Seq<(u64, u64)> {
        self.action_timestamps@
    }

    /// The kinds currently exempt from tracking.
    pub closed spec fn exempt(&self) -> Set<u64> {
        self.excluded_actions@.to_set()
    }

    /// A breaker with no recorded stamps and the default exemption list.
    pub fn new() -> (b: CircuitBreaker)
        ensures
            b.stamps() == Seq::<(u64, u64)>::empty(),
            forall|k: u64| #[trigger] b.exempt().contains(k) <==> default_exempt(k),
    {
        broadcast use vstd::seq_lib::lemma_seq_contains_after_push;

        let mut excluded_actions: Vec<u64> = Vec::new();
        proof {
            assert(!excluded_actions@.contains(Action::Render.kind()));
        }
        excluded_actions.push(Action::Render.kind_id());
        excluded_actions.push(Action::Tick.kind_id());
        excluded_actions.push(Action::Up.kind_id());
        excluded_actions.push(Action::Down.kind_id());
        excluded_actions.push(Action::Left.kind_id());
        excluded_actions.push(Action::Right.kind_id());
        CircuitBreaker { action_timestamps: Vec::new(), excluded_actions }
    }

    /// Add the action's kind to the exemption list.
    pub fn exclude_action(&mut self, action: &Action)
        ensures
            final(self).stamps() == old(self).stamps(),
            forall|k: u64| #[trigger]
                final(self).exempt().contains(k) <==> (old(self).exempt().contains(k) || k
                    == action.kind()),
    {
        broadcast use vstd::seq_lib::lemma_seq_contains_after_push;

        let kind = action.kind_id();
        if !self.contains_excluded(kind) {
            self.excluded_actions.push(kind);
        }
    }

    /// Remove the action's kind from the exemption list, so it is tracked
    /// again.
    pub fn include_action(&mut self, action: &Action)
        ensures
            final(self).stamps() == old(self).stamps(),
            forall|k: u64| #[trigger]
                final(self).exempt().contains(k) <==> (old(self).exempt().contains(k) && k
                    != action.kind()),
    {
        broadcast use vstd::seq_lib::lemma_seq_contains_after_push;

        let kind = action.kind_id();
        let ghost orig = self.excluded_actions@;
        let orig_len = self.excluded_actions.len();
        let mut kept: Vec<u64> = Vec::new();
        let mut i: usize = 0;
        proof {
            assert(orig.take(0) =~= Seq::<u64>::empty());
        }
        while i < self.excluded_actions.len()
            invariant
                i <= orig_len,
                orig.len() == orig_len,
                self.excluded_actions@ == orig,
                kind == action.kind(),
                forall|k: u64| #[trigger]
                    kept@.contains(k) <==> (orig.take(i as int).contains(k) && k != kind),
            decreases orig.len() - i,
        {
            let x = self.excluded_actions[i];
            let ghost kept_before = kept@;
            if x != kind {
                kept.push(x);
            }
            proof {
                assert(orig.take(i as int + 1) =~= orig.take(i as int).push(x));
                assert forall|k: u64| #[trigger]
                    kept@.contains(k) <==> (orig.take(i as int + 1).contains(k) && k != kind) by {
                    vstd::seq_lib::lemma_seq_contains_after_push(orig.take(i as int), x, k);
                    if x != kind {
                        assert(kept@ == kept_before.push(x));
                        vstd::seq_lib::lemma_seq_contains_after_push(kept_before, x, k);
                    }
                }
            }
            i = i + 1;
        }
        proof {
            assert(orig.take(i as int) =~= orig);
        }
        self.excluded_actions = kept;
    }

    /// Whether the kind is on the exemption list.
    fn contains_excluded(&self, kind: u64) -> (r: bool)
        ensures
            r == self.exempt().contains(kind),
    {
        let mut i: usize = 0;
        while i < self.excluded_actions.len()
            invariant
                i <= self.excluded_actions@.len(),
                forall|j: int| 0 <= j < i ==> self.excluded_actions@[j] != kind,
            decreases self.excluded_actions@.len() - i,
        {
            if self.excluded_actions[i] == kind {
                return true;
            }
            i = i + 1;
        }
        false
    }

    /// Purge every stamp that has aged out of the window.
    pub fn cleanup_old_timestamps(&mut self, now_ms: u64)
        ensures
            final(self).stamps() == live_stamps(old(self).stamps(), now_ms),
            final(self).exempt() == old(self).exempt(),
    {
        let ghost orig = self.action_timestamps@;
        let orig_len = self.action_timestamps.len();
        let mut kept: Vec<(u64, u64)> = Vec::new();
        let mut taken: usize = 0;
        proof {
            assert(orig.take(0) =~= Seq::<(u64, u64)>::empty());
        }
        while self.action_timestamps.len() > 0
            invariant
                taken <= orig_len,
                orig.len() == orig_len,
                taken + self.action_timestamps@.len() == orig.len(),
                self.action_timestamps@ =~= orig.skip(taken as int),
                kept@ == live_stamps(orig.take(taken as int), now_ms),
                self.excluded_actions@ == old(self).excluded_actions@,
            decreases self.action_timestamps@.len(),
        {
            let e = self.action_timestamps.remove(0);
            proof {
                assert(orig.skip(taken as int).remove(0) =~= orig.skip(taken as int + 1));
                assert(orig.take(taken as int + 1).drop_last() =~= orig.take(taken as int));
                assert(orig.take(taken as int + 1).last() == e);
            }
            let keep = now_ms <= e.1 || now_ms - e.1 <= WINDOW_DURATION_MS;
            if keep {
                kept.push(e);
            }
            taken = taken + 1;
        }
        proof {
            assert(orig.take(taken as int) =~= orig);
        }
        self.action_timestamps = kept;
    }

    /// How many recorded stamps carry the given kind.
    fn count_kind(&self, kind: u64) -> (n: usize)
        ensures
            n == count_of(self.stamps(), kind),
    {
        let mut n: usize = 0;
        let mut i: usize = 0;
        while i < self.action_timestamps.len()
            invariant
                i <= self.action_timestamps@.len(),
                n == count_of(self.action_timestamps@.take(i as int), kind),
                n <= i,
            decreases self.action_timestamps@.len() - i,
        {
            proof {
                let t1 = self.action_timestamps@.take(i as int + 1);
                assert(t1.drop_last() =~= self.action_timestamps@.take(i as int));
                assert(t1.last() == self.action_timestamps@[i as int]);
            }
            if self.action_timestamps[i].0 == kind {
                n = n + 1;
            }
            i = i + 1;
        }
        proof {
            assert(self.action_timestamps@.take(i as int) =~= self.action_timestamps@);
        }
        n
    }

    /// Observe one dispatch of `action` at `now_ms`.  An exempt kind is
    /// never tracked.  Any other kind first purges expired stamps, then
    /// records this dispatch; when its in-window count exceeds the threshold
    /// the result is the fatal trip diagnostic, and continuing to dispatch
    /// is unsound.
    pub fn check_action(&mut self, action: &Action, now_ms: u64) -> (r: Result<(), BreakerTrip>)
        ensures
            final(self).stamps() == breaker_step(
                old(self).stamps(),
                old(self).exempt(),
                action.kind(),
                now_ms,
            ),
            final(self).exempt() == old(self).exempt(),
            r is Err <==> breaker_trips(old(self).stamps(), old(self).exempt(), action.kind(), now_ms),
            (match r {
                Ok(()) => true,
                Err(trip) => {
                    &&& trip.kind == action.kind()
                    &&& trip.kind_name@ == action.kind_name_spec()
                    &&& trip.count == count_of(
                        live_stamps(old(self).stamps(), now_ms),
                        action.kind(),
                    ) + 1
                },
            }),
    {
        let kind = action.kind_id();
        if self.contains_excluded(kind) {
            return Ok(());
        }
        self.cleanup_old_timestamps(now_ms);
        self.action_timestamps.push((kind, now_ms));
        proof {
            let s = self.action_timestamps@;
            assert(s.drop_last() =~= live_stamps(old(self).stamps(), now_ms));
            assert(s.last() == (kind, now_ms));
        }
        let count = self.count_kind(kind);
        if count > MAX_ACTIONS_PER_WINDOW {
            Err(BreakerTrip { kind, kind_name: action.kind_name(), count })
        } else {
            Ok(())
        }
    }
}

proof fn lemma_count_push(s: Seq<(u64, u64)>, kind: u64, e: (u64, u64))
    ensures
        count_of(s.push(e), kind) == count_of(s, kind) + if e.0 == kind {
            1nat
        } else {
            0nat
        },
{
    assert(s.push(e).drop_last() =~= s);
}

/// Purging touches nothing when every stamp is still inside the window.
proof fn lemma_live_stamps_all_fresh(s: Seq<(u64, u64)>, now_ms: u64)
    requires
        forall|i: int| 0 <= i < s.len() ==> #[trigger] stamp_in_window(s[i].1, now_ms),
    ensures
        live_stamps(s, now_ms) == s,
    decreases s.len(),
{
    if s.len() == 0 {
        assert(live_stamps(s, now_ms) =~= s);
    } else {
        assert forall|i: int| 0 <= i < s.drop_last().len() implies #[trigger] stamp_in_window(
            s.drop_last()[i].1,
            now_ms,
        ) by {
            assert(s.drop_last()[i] == s[i]);
        }
        lemma_live_stamps_all_fresh(s.drop_last(), now_ms);
        assert(stamp_in_window(s[s.len() - 1].1, now_ms));
        assert(live_stamps(s, now_ms) =~= s);
    }
}

/// A run of dispatches of one tracked kind, all inside one window, records
/// every dispatch: nothing is purged, and the count equals the number of
/// dispatches.
proof fn lemma_run_uniform(exempt: Set<u64>, k: u64, ts: Seq<u64>)
    requires
        !exempt.contains(k),
        forall|p: int, q: int|
            0 <= p <= q < ts.len() ==> #[trigger] stamp_in_window(ts[p], ts[q]),
    ensures
        breaker_run(Seq::empty(), exempt, k, ts) == Seq::new(ts.len(), |i: int| (k, ts[i])),
        count_of(breaker_run(Seq::empty(), exempt, k, ts), k) == ts.len(),
    decreases ts.len(),
{
    let uniform = Seq::new(ts.len(), |i: int| (k, ts[i]));
    if ts.len() == 0 {
        assert(breaker_run(Seq::empty(), exempt, k, ts) =~= uniform);
    } else {
        let pre = ts.drop_last();
        assert forall|p: int, q: int| 0 <= p <= q < pre.len() implies #[trigger] stamp_in_window(
            pre[p],
            pre[q],
        ) by {
            assert(pre[p] == ts[p]);
            assert(pre[q] == ts[q]);
            assert(stamp_in_window(ts[p], ts[q]));
        }
        lemma_run_uniform(exempt, k, pre);
        let uniform_pre = Seq::new(pre.len(), |i: int| (k, pre[i]));
        assert forall|i: int| 0 <= i < uniform_pre.len() implies #[trigger] stamp_in_window(
            uniform_pre[i].1,
            ts.last(),
        ) by {
            assert(uniform_pre[i].1 == ts[i]);
            assert(stamp_in_window(ts[i], ts[ts.len() - 1]));
        }
        lemma_live_stamps_all_fresh(uniform_pre, ts.last());
        lemma_count_push(uniform_pre, k, (k, ts.last()));
        assert(uniform_pre.push((k, ts.last())) =~= uniform);
    }
}

/// Dispatching a tracked kind at most `MAX_ACTIONS_PER_WINDOW` times, with
/// every dispatch inside one window of every other, never trips the
/// breaker: starting from an empty store, the `i`-th dispatch is accepted.
pub proof fn lemma_no_trip_within_threshold(exempt: Set<u64>, k: u64, ts: Seq<u64>, i: int)
    requires
        !exempt.contains(k),
        forall|p: int, q: int|
            0 <= p <= q < ts.len() ==> #[trigger] stamp_in_window(ts[p], ts[q]),
        ts.len() <= MAX_ACTIONS_PER_WINDOW,
        0 <= i < ts.len(),
    ensures
        !breaker_trips(breaker_run(Seq::empty(), exempt, k, ts.take(i)), exempt, k, ts[i]),
{
    let pre = ts.take(i);
    assert forall|p: int, q: int| 0 <= p <= q < pre.len() implies #[trigger] stamp_in_window(
        pre[p],
        pre[q],
    ) by {
        assert(pre[p] == ts[p]);
        assert(pre[q] == ts[q]);
        assert(stamp_in_window(ts[p], ts[q]));
    }
    lemma_run_uniform(exempt, k, pre);
    let uniform_pre = Seq::new(pre.len(), |j: int| (k, pre[j]));
    assert forall|j: int| 0 <= j < uniform_pre.len() implies #[trigger] stamp_in_window(
        uniform_pre[j].1,
        ts[i],
    ) by {
        assert(uniform_pre[j].1 == ts[j]);
        assert(stamp_in_window(ts[j], ts[i]));
    }
    lemma_live_stamps_all_fresh(uniform_pre, ts[i]);
}

/// The dispatch right after the threshold, still inside the window, does
/// trip the breaker.
pub proof fn lemma_trip_past_threshold(exempt: Set<u64>, k: u64, ts: Seq<u64>)
    requires
        !exempt.contains(k),
        forall|p: int, q: int|
            0 <= p <= q < ts.len() ==> #[trigger] stamp_in_window(ts[p], ts[q]),
        ts.len() == MAX_ACTIONS_PER_WINDOW + 1,
    ensures
        breaker_trips(
            breaker_run(Seq::empty(), exempt, k, ts.take(MAX_ACTIONS_PER_WINDOW as int)),
            exempt,
            k,
            ts[MAX_ACTIONS_PER_WINDOW as int],
        ),
{
    let n = MAX_ACTIONS_PER_WINDOW as int;
    let pre = ts.take(n);
    assert forall|p: int, q: int| 0 <= p <= q < pre.len() implies #[trigger] stamp_in_window(
        pre[p],
        pre[q],
    ) by {
        assert(pre[p] == ts[p]);
        assert(pre[q] == ts[q]);
        assert(stamp_in_window(ts[p], ts[q]));
    }
    lemma_run_uniform(exempt, k, pre);
    let uniform_pre = Seq::new(pre.len(), |j: int| (k, pre[j]));
    assert forall|j: int| 0 <= j < uniform_pre.len() implies #[trigger] stamp_in_window(
        uniform_pre[j].1,
        ts[n],
    ) by {
        assert(uniform_pre[j].1 == ts[j]);
        assert(stamp_in_window(ts[j], ts[n]));
    }
    lemma_live_stamps_all_fresh(uniform_pre, ts[n]);
}

/// An exempt kind is never tracked: however many times it is dispatched and
/// at whatever times, the stamp store never changes and no dispatch trips.
pub proof fn lemma_exempt_never_trips(
    stamps: Seq<(u64, u64)>,
    exempt: Set<u64>,
    k: u64,
    ts: Seq<u64>,
)
    requires
        exempt.contains(k),
    ensures
        breaker_run(stamps, exempt, k, ts) == stamps,
        forall|i: int|
            0 <= i < ts.len() ==> !breaker_trips(
                #[trigger] breaker_run(stamps, exempt, k, ts.take(i)),
                exempt,
                k,
                ts[i],
            ),
    decreases ts.len(),
{
    if ts.len() > 0 {
        lemma_exempt_never_trips(stamps, exempt, k, ts.drop_last());
        assert forall|i: int|
            0 <= i < ts.len() implies !breaker_trips(
            #[trigger] breaker_run(stamps, exempt, k, ts.take(i)),
            exempt,
            k,
            ts[i],
        ) by {
            if i < ts.len() - 1 {
                assert(ts.take(i) =~= ts.drop_last().take(i));
                assert(ts[i] == ts.drop_last()[i]);
            }
        }
    }
}

} // verus!
