use vstd::prelude::*;

use crate::action::Action;
use crate::mode::Mode;

verus! {

/// One key press, already decoded from the terminal: the Unicode scalar of
/// a character key (or a code above the Unicode range for named keys), plus
/// modifier flags.
#[derive(Clone, Copy, Debug, PartialEq, Eq, Structural)]
pub struct KeyPress {
    pub code: u32,
    pub ctrl: bool,
    pub alt: bool,
}

impl KeyPress {
    /// The press of a plain character key.
    pub fn from_char(c: char) -> (k: KeyPress)
        ensures
            k.code == c as u32,
            !k.ctrl,
            !k.alt,
    {
        KeyPress { code: c as u32, ctrl: false, alt: false }
    }
}

/// One registered binding: in this mode, this exact key sequence triggers
/// this action.
#[derive(Debug, Clone)]
pub struct KeyBinding {
    pub mode: Mode,
    pub keys: Vec<KeyPress>,
    pub action: Action,
}

/// Whether a binding fires for this mode and buffered sequence: mode and
/// sequence must match exactly.
pub open spec fn binding_matches(b: KeyBinding, mode: Mode, keys: Seq<KeyPress>) -> bool {
    b.mode == mode && b.keys@ == keys
}

/// The first registered binding, from position `i` on, matching the mode
/// and sequence.
pub open spec fn lookup_from(
    bs: Seq<KeyBinding>,
    mode: Mode,
    keys: Seq<KeyPress>,
    i: int,
) -> Option<Action>
    decreases bs.len() - i,
{
    if i < 0 || i >= bs.len() {
        None
    } else if binding_matches(bs[i], mode, keys) {
        Some(bs[i].action)
    } else {
        lookup_from(bs, mode, keys, i + 1)
    }
}

/// The action bound to this exact (mode, sequence) pair, if any;
/// registration order decides between duplicates.
pub open spec fn lookup_spec(bs: Seq<KeyBinding>, mode: Mode, keys: Seq<KeyPress>) -> Option<
    Action,
> {
    lookup_from(bs, mode, keys, 0)
}

/// The keybinding table: a list of registered bindings, looked up by exact
/// (mode, key sequence) match.
#[derive(Debug, Clone)]
pub struct KeyBindings {
    bindings: Vec<KeyBinding>,
}

impl View for KeyBindings {
    type V = Seq<KeyBinding>;

    closed spec fn view(&self) -> Seq<KeyBinding> {
        self.bindings@
    }
}

/// Element-wise equality of two key sequences.
fn keys_equal(a: &Vec<KeyPress>, b: &Vec<KeyPress>) -> (r: bool)
    ensures
        r == (a@ == b@),
{
    if a.len() != b.len() {
        return false;
    }
    let mut i: usize = 0;
    while i < a.len()
        invariant
            i <= a@.len(),
            a@.len() == b@.len(),
            forall|j: int| 0 <= j < i ==> a@[j] == b@[j],
        decreases a@.len() - i,
    {
        if a[i] != b[i] {
            return false;
        }
        i = i + 1;
    }
    proof {
        assert(a@ =~= b@);
    }
    true
}

impl KeyBindings {
    /// An empty table.
    pub fn new() -> (t: KeyBindings)
        ensures
            t@ == Seq::<KeyBinding>::empty(),
    {
        KeyBindings { bindings: Vec::new() }
    }

    /// Register one binding at the end of the table.
    pub fn bind(&mut self, mode: Mode, keys: Vec<KeyPress>, action: Action)
        ensures
            final(self)@ == old(self)@.push(KeyBinding { mode, keys, action }),
    {
        self.bindings.push(KeyBinding { mode, keys, action });
    }

    /// Look the sequence up; the first registered match wins.
    pub fn lookup(&self, mode: Mode, keys: &Vec<KeyPress>) -> (r: Option<&Action>)
        ensures
            (match r {
                Some(a) => lookup_spec(self@, mode, keys@) == Some(*a),
                None => lookup_spec(self@, mode, keys@) is None,
            }),
    {
        let mut i: usize = 0;
        while i < self.bindings.len()
            invariant
                i <= self@.len(),
                lookup_spec(self@, mode, keys@) == lookup_from(self@, mode, keys@, i as int),
            decreases self@.len() - i,
        {
            let b = &self.bindings[i];
            let mode_matches: bool = b.mode == mode;
            if mode_matches && keys_equal(&b.keys, keys) {
                return Some(&b.action);
            }
            i = i + 1;
        }
        None
    }
}

/// What one key press does to the resolver: the buffer grows by the key;
/// an exact match for the whole buffer emits its action and clears the
/// buffer, anything else leaves the grown buffer pending until the next
/// match or tick.
pub open spec fn resolver_buffer_after(
    bs: Seq<KeyBinding>,
    mode: Mode,
    buffer: Seq<KeyPress>,
    key: KeyPress,
) -> Seq<KeyPress> {
    if lookup_spec(bs, mode, buffer.push(key)) is Some {
        Seq::empty()
    } else {
        buffer.push(key)
    }
}

/// The action one key press resolves to, if any.
pub open spec fn resolver_emits(
    bs: Seq<KeyBinding>,
    mode: Mode,
    buffer: Seq<KeyPress>,
    key: KeyPress,
) -> Option<Action> {
    lookup_spec(bs, mode, buffer.push(key))
}

/// The multi-key resolver: a rolling buffer of key presses since the last
/// match or tick.  A one-key binding fires immediately, even when it is
/// also the prefix of a longer sequence; an unmatched buffer waits for more
/// keys and is discarded on the next tick, which bounds how long a partial
/// sequence may dangle.
#[derive(Debug, Clone)]
pub struct KeyResolver {
    buffer: Vec<KeyPress>,
}

impl View for KeyResolver {
    type V = Seq<KeyPress>;

    closed spec fn view(&self) -> Seq<KeyPress> {
        self.buffer@
    }
}

impl KeyResolver {
    /// A resolver with an empty buffer.
    pub fn new() -> (r: KeyResolver)
        ensures
            r@ == Seq::<KeyPress>::empty(),
    {
        KeyResolver { buffer: Vec::new() }
    }

    /// Feed one key press; the returned action, if any, is the binding the
    /// grown buffer matched.
    pub fn on_key<'a>(&mut self, table: &'a KeyBindings, mode: Mode, key: KeyPress) -> (emitted:
        Option<&'a Action>)
        ensures
            final(self)@ == resolver_buffer_after(table@, mode, old(self)@, key),
            (match emitted {
                Some(a) => resolver_emits(table@, mode, old(self)@, key) == Some(*a),
                None => resolver_emits(table@, mode, old(self)@, key) is None,
            }),
    {
        self.buffer.push(key);
        let hit = table.lookup(mode, &self.buffer);
        if hit.is_some() {
            self.buffer = Vec::new();
        }
        hit
    }

    /// The periodic tick discards any pending partial sequence.
    pub fn on_tick(&mut self)
        ensures
            final(self)@ == Seq::<KeyPress>::empty(),
    {
        self.buffer = Vec::new();
    }
}

} // verus!
