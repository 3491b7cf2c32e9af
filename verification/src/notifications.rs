use vstd::prelude::*;

use crate::action::Action;

verus! {

/// How long a notification stays visible, in milliseconds, measured from its
/// creation.
pub const NOTIFICATION_DURATION_MS: u64 = 5000;

/// An ephemeral user-facing message.
#[derive(Debug, Clone, PartialEq, Eq)]
pub enum Notification {
    Info(String),
    Warning(String),
    Error(String),
}

/// A notification still counts as visible at `now_ms` when its age is below
/// the fixed lifetime; a creation stamp in the future also counts.
pub open spec fn notification_fresh(created_ms: u64, now_ms: u64) -> bool {
    now_ms <= created_ms || now_ms - created_ms < NOTIFICATION_DURATION_MS
}

/// The subsequence of queue entries still visible at `now_ms`, in their
/// original order.
pub open spec fn live_entries(q: Seq<(Notification, u64)>, now_ms: u64) -> Seq<
    (Notification, u64),
>
    decreases q.len(),
{
    if q.len() == 0 {
        Seq::empty()
    } else {
        let rest = live_entries(q.drop_last(), now_ms);
        if notification_fresh(q.last().1, now_ms) {
            rest.push(q.last())
        } else {
            rest
        }
    }
}

/// The queue of pending notifications, each paired with its creation time in
/// milliseconds.  `Notify` appends, `Tick` drops the expired ones, and
/// nothing else mutates the queue.
#[derive(Debug, Clone)]
pub struct Notifications {
    notifications: Vec<(Notification, u64)>,
}

impl View for Notifications {
    type V = Seq<(Notification, u64)>;

    closed spec fn view(&self) -> Seq<(Notification, u64)> {
        self.notifications@
    }
}

impl Notifications {
    /// An empty queue.
    pub fn new() -> (q: Notifications)
        ensures
            q@ == Seq::<(Notification, u64)>::empty(),
    {
        Notifications { notifications: Vec::new() }
    }

    /// Drop every entry whose lifetime has passed, keeping the rest in
    /// order.
    fn app_tick(&mut self, now_ms: u64)
        ensures
            final(self)@ == live_entries(old(self)@, now_ms),
    {
        let ghost orig = self.notifications@;
        let orig_len = self.notifications.len();
        let mut kept: Vec<(Notification, u64)> = Vec::new();
        let mut taken: usize = 0;
        proof {
            assert(orig.take(0) =~= Seq::<(Notification, u64)>::empty());
        }
        while self.notifications.len() > 0
            invariant
                taken <= orig_len,
                orig.len() == orig_len,
                taken + self.notifications@.len() == orig.len(),
                self.notifications@ =~= orig.skip(taken as int),
                kept@ == live_entries(orig.take(taken as int), now_ms),
            decreases self.notifications@.len(),
        {
            let e = self.notifications.remove(0);
            proof {
                assert(orig.skip(taken as int).remove(0) =~= orig.skip(taken as int + 1));
                assert(orig.take(taken as int + 1).drop_last() =~= orig.take(taken as int));
                assert(orig.take(taken as int + 1).last() == e);
            }
            let keep = now_ms <= e.1 || now_ms - e.1 < NOTIFICATION_DURATION_MS;
            proof {
                assert(keep == notification_fresh(e.1, now_ms));
            }
            if keep {
                kept.push(e);
            }
            taken = taken + 1;
        }
        proof {
            assert(orig.take(taken as int) =~= orig);
        }
        self.notifications = kept;
    }

    /// Apply one action to the queue: `Notify` appends a message stamped
    /// `now_ms`, `Tick` expires old messages, everything else leaves the
    /// queue unchanged.  The queue never emits follow-up actions.
    pub fn update(&mut self, action: Action, now_ms: u64) -> (emitted: Option<Action>)
        ensures
            emitted is None,
            (match action {
                Action::Tick => final(self)@ == live_entries(old(self)@, now_ms),
                Action::Notify(n) => final(self)@ == old(self)@.push((n, now_ms)),
                _ => final(self)@ == old(self)@,
            }),
    {
        match action {
            Action::Tick => {
                self.app_tick(now_ms);
            },
            Action::Notify(n) => {
                self.notifications.push((n, now_ms));
            },
            _ => {},
        }
        None
    }

    /// The queue as it stands; the render path reads this snapshot.
    pub fn visible(&self) -> (entries: &Vec<(Notification, u64)>)
        ensures
            entries@ == self@,
    {
        &self.notifications
    }

    /// How many notifications are pending.
    pub fn len(&self) -> (n: usize)
        ensures
            n == self@.len(),
    {
        self.notifications.len()
    }
}

} // verus!
