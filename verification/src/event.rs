use vstd::prelude::*;

use crate::mode::Mode;

verus! {

/// Low-frequency structural signals, kept apart from `Action` so that
/// components interested only in rare notices need not filter the
/// high-frequency `Tick` and `Render` stream.
#[derive(Debug, Clone, PartialEq, Eq)]
pub enum AppEvent {
    /// The data provider merged a page; readers should take a fresh snapshot.
    ProviderReturnedResult,
    /// The data provider failed with an opaque message.
    ProviderError(String),
    CommandPaletteClosed,
    CommandPaletteOpened,
    /// The acting user was resolved to this login name.
    UserIdentified(String),
    Quit,
    ModeChanged(Mode),
}

} // verus!
