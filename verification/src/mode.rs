use vstd::prelude::*;

verus! {

/// Input-routing state of the dispatch loop.  Exactly one mode is active at a
/// time; transitions happen only through `Action::ChangeMode`.
#[derive(Clone, Copy, Debug, PartialEq, Eq, Structural)]
pub enum Mode {
    /// Keys are resolved through the keybinding table.
    Normal,
    /// The command palette captures every key press.
    CommandEntry,
    /// The search palette captures every key press and re-runs the search on
    /// each edit.
    SearchEntry,
}

impl Mode {
    /// True when a modal palette owns the keyboard and the keybinding
    /// resolver must not see key presses.
    pub open spec fn is_modal(self) -> bool {
        self != Mode::Normal
    }
}

} // verus!
