use vstd::prelude::*;

use crate::action::Action;
use crate::keys::KeyPress;

verus! {

/// How long the recent-keys hint stays on screen after the last press, in
/// milliseconds.
pub const COOLDOWN_MS: u64 = 1000;

/// The recent-keys hint: a history of presses since the last pause, shown
/// by the renderer and cleared one cooldown after the last press.
#[derive(Debug, Clone)]
pub struct Keystrokes {
    /// When the last key was pressed, in milliseconds.
    pub timer_ms: u64,
    pub key_history: Vec<KeyPress>,
}

impl Keystrokes {
    /// An empty history.
    pub fn new() -> (k: Keystrokes)
        ensures
            k.timer_ms == 0,
            k.key_history@ == Seq::<KeyPress>::empty(),
    {
        Keystrokes { timer_ms: 0, key_history: Vec::new() }
    }

    /// Record one press and ask for a redraw.
    pub fn handle_key_events(&mut self, key: KeyPress, now_ms: u64) -> (emitted: Option<Action>)
        ensures
            final(self).key_history@ == old(self).key_history@.push(key),
            final(self).timer_ms == now_ms,
            emitted == Some(Action::Render),
    {
        self.key_history.push(key);
        self.timer_ms = now_ms;
        Option::Some(Action::Render)
    }

    /// On a tick, clear the history once the cooldown since the last press
    /// has passed.
    pub fn update(&mut self, action: &Action, now_ms: u64) -> (emitted: Option<Action>)
        ensures
            emitted is None,
            final(self).timer_ms == old(self).timer_ms,
            (match *action {
                Action::Tick => {
                    if now_ms >= old(self).timer_ms && now_ms - old(self).timer_ms
                        >= COOLDOWN_MS {
                        final(self).key_history@ == Seq::<KeyPress>::empty()
                    } else {
                        final(self).key_history@ == old(self).key_history@
                    }
                },
                _ => final(self).key_history@ == old(self).key_history@,
            }),
    {
        match action {
            Action::Tick => {
                if now_ms >= self.timer_ms && now_ms - self.timer_ms >= COOLDOWN_MS {
                    self.key_history = Vec::new();
                }
            },
            _ => {},
        }
        Option::None
    }
}

} // verus!
