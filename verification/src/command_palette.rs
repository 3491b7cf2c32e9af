use vstd::prelude::*;

use crate::action::Action;
use crate::action::Emitted;
use crate::event::AppEvent;
use crate::mode::Mode;
use crate::text;

verus! {

/// A key press as the modal palette sees it, already decoded from the
/// terminal.
#[derive(Clone, Copy, Debug, PartialEq, Eq, Structural)]
pub enum PaletteKey {
    Char(char),
    Enter,
    Escape,
    Backspace,
    /// Any key the palette ignores.
    Other,
}

/// The modal command/search input.  While active it owns the keyboard: the
/// dispatch loop routes every key press here and nowhere else.
#[derive(Debug, Clone)]
pub struct CommandPalette {
    pub buffer: Vec<char>,
    pub cursor_position: usize,
    pub mode: Mode,
    pub active: bool,
}

/// The palette's abstract state.
pub ghost struct PaletteView {
    pub buffer: Seq<char>,
    pub cursor_position: int,
    pub mode: Mode,
    pub active: bool,
}

impl PaletteView {
    /// The cursor never leaves the buffer.
    pub open spec fn wf(self) -> bool {
        0 <= self.cursor_position <= self.buffer.len()
    }
}

impl View for CommandPalette {
    type V = PaletteView;

    open spec fn view(&self) -> PaletteView {
        PaletteView {
            buffer: self.buffer@,
            cursor_position: self.cursor_position as int,
            mode: self.mode,
            active: self.active,
        }
    }
}

/// The palette after the mode changes: entering a modal mode activates it
/// with a cleared buffer, returning to normal deactivates it.
pub open spec fn palette_after_change_mode(p: PaletteView, m: Mode) -> PaletteView {
    if m.is_modal() {
        PaletteView { buffer: Seq::empty(), cursor_position: 0, mode: m, active: true }
    } else {
        PaletteView { mode: m, active: false, ..p }
    }
}

/// The palette after one key press while active: characters are typed at
/// the cursor, backspace deletes before it, enter and escape discard the
/// buffer, and enter also releases the keyboard.
pub open spec fn palette_after_key(p: PaletteView, k: PaletteKey) -> PaletteView {
    if !p.active {
        p
    } else {
        match k {
            PaletteKey::Char(c) => PaletteView {
                buffer: p.buffer.insert(p.cursor_position, c),
                cursor_position: p.cursor_position + 1,
                ..p
            },
            PaletteKey::Enter => PaletteView {
                buffer: Seq::empty(),
                cursor_position: 0,
                active: false,
                ..p
            },
            PaletteKey::Escape => PaletteView { buffer: Seq::empty(), cursor_position: 0, ..p },
            PaletteKey::Backspace => {
                if p.cursor_position > 0 {
                    PaletteView {
                        buffer: p.buffer.remove(p.cursor_position - 1),
                        cursor_position: p.cursor_position - 1,
                        ..p
                    }
                } else {
                    p
                }
            },
            PaletteKey::Other => p,
        }
    }
}

impl CommandPalette {
    /// An inactive palette with an empty buffer, in normal mode.
    pub fn new() -> (p: CommandPalette)
        ensures
            p@.buffer == Seq::<char>::empty(),
            p@.cursor_position == 0,
            p@.mode == Mode::Normal,
            !p@.active,
            p@.wf(),
    {
        CommandPalette {
            buffer: Vec::new(),
            cursor_position: 0,
            mode: Mode::Normal,
            active: false,
        }
    }

    /// Activate the palette and announce it; the buffer is left alone.
    pub fn show(&mut self) -> (out: Emitted)
        ensures
            final(self)@ == (PaletteView { active: true, ..old(self)@ }),
            out.actions@.len() == 1 && out.actions@[0] == Action::Render,
            out.events@.len() == 1 && out.events@[0] == AppEvent::CommandPaletteOpened,
    {
        self.active = true;
        let mut out = Emitted::none();
        out.actions.push(Action::Render);
        out.events.push(AppEvent::CommandPaletteOpened);
        out
    }

    /// Deactivate the palette and announce it.
    pub fn dismiss(&mut self) -> (out: Emitted)
        ensures
            final(self)@ == (PaletteView { active: false, ..old(self)@ }),
            out.actions@.len() == 0,
            out.events@.len() == 1 && out.events@[0] == AppEvent::CommandPaletteClosed,
    {
        self.active = false;
        let mut out = Emitted::none();
        out.events.push(AppEvent::CommandPaletteClosed);
        out
    }

    /// React to a mode change: entering a modal mode clears the buffer,
    /// takes the keyboard, and announces the opened palette; returning to
    /// normal releases it.  Every other action is ignored.
    pub fn handle_action(&mut self, action: &Action) -> (out: Emitted)
        ensures
            (match *action {
                Action::ChangeMode(m) => {
                    &&& final(self)@ == palette_after_change_mode(old(self)@, m)
                    &&& (m.is_modal() ==> out.actions@.len() == 1 && out.actions@[0]
                        == Action::Render && out.events@.len() == 1 && out.events@[0]
                        == AppEvent::CommandPaletteOpened)
                    &&& (!m.is_modal() ==> out.actions@.len() == 0 && out.events@.len() == 1
                        && out.events@[0] == AppEvent::CommandPaletteClosed)
                },
                _ => final(self)@ == old(self)@ && out.actions@.len() == 0 && out.events@.len()
                    == 0,
            }),
            old(self)@.wf() ==> final(self)@.wf(),
    {
        match action {
            Action::ChangeMode(m) => {
                self.mode = *m;
                let modal: bool = *m != Mode::Normal;
                if modal {
                    self.buffer = Vec::new();
                    self.cursor_position = 0;
                    self.show()
                } else {
                    self.dismiss()
                }
            },
            _ => Emitted::none(),
        }
    }

    /// Feed one key press.  Inactive, the palette ignores it.  Active, it
    /// edits the buffer and emits the follow-ups the dispatch loop expects:
    /// a redraw after every edit, a live search for each edit in search
    /// mode, and on enter the trimmed text as a command or search followed
    /// by the return to normal mode.
    pub fn handle_key_events(&mut self, key: PaletteKey) -> (out: Emitted)
        requires
            old(self)@.wf(),
        ensures
            final(self)@ == palette_after_key(old(self)@, key),
            final(self)@.wf(),
            !old(self)@.active ==> out.actions@.len() == 0 && out.events@.len() == 0,
            old(self)@.active ==> (match key {
                PaletteKey::Char(c) => {
                    &&& out.events@.len() == 0
                    &&& out.actions@[0] == Action::Render
                    &&& (old(self)@.mode == Mode::SearchEntry ==> out.actions@.len() == 2 && (
                    out.actions@[1] matches Action::ExecuteSearch(s) && s@ == text::trimmed(
                        final(self)@.buffer,
                    )))
                    &&& (old(self)@.mode != Mode::SearchEntry ==> out.actions@.len() == 1)
                },
                PaletteKey::Enter => {
                    &&& out.events@.len() == 1 && out.events@[0] == AppEvent::CommandPaletteClosed
                    &&& (old(self)@.mode == Mode::CommandEntry ==> out.actions@.len() == 3 && (
                    out.actions@[0] matches Action::ExecuteCommand(s) && s@ == text::trimmed(
                        old(self)@.buffer,
                    )) && out.actions@[1] == Action::ChangeMode(Mode::Normal) && out.actions@[2]
                        == Action::Render)
                    &&& (old(self)@.mode == Mode::SearchEntry ==> out.actions@.len() == 3 && (
                    out.actions@[0] matches Action::ExecuteSearch(s) && s@ == text::trimmed(
                        old(self)@.buffer,
                    )) && out.actions@[1] == Action::ChangeMode(Mode::Normal) && out.actions@[2]
                        == Action::Render)
                    &&& (old(self)@.mode == Mode::Normal ==> out.actions@.len() == 2
                        && out.actions@[0] == Action::ChangeMode(Mode::Normal) && out.actions@[1]
                        == Action::Render)
                },
                PaletteKey::Escape => {
                    &&& out.events@.len() == 0
                    &&& out.actions@.len() == 2
                    &&& out.actions@[0] == Action::ChangeMode(Mode::Normal)
                    &&& out.actions@[1] == Action::Render
                },
                PaletteKey::Backspace => {
                    &&& out.events@.len() == 0
                    &&& (old(self)@.cursor_position == 0 ==> out.actions@.len() == 0)
                    &&& (old(self)@.cursor_position > 0 ==> out.actions@[0] == Action::Render && (
                    old(self)@.mode == Mode::SearchEntry ==> out.actions@.len() == 2 && (
                    out.actions@[1] matches Action::ExecuteSearch(s) && s@ == text::trimmed(
                        final(self)@.buffer,
                    ))) && (old(self)@.mode != Mode::SearchEntry ==> out.actions@.len() == 1))
                },
                PaletteKey::Other => out.actions@.len() == 0 && out.events@.len() == 0,
            }),
    {
        if !self.active {
            return Emitted::none();
        }
        match key {
            PaletteKey::Char(c) => {
                self.buffer.insert(self.cursor_position, c);
                let n = self.buffer.len();
                self.cursor_position = self.cursor_position + 1;
                let mut out = Emitted::none();
                out.actions.push(Action::Render);
                if self.mode == Mode::SearchEntry {
                    let command = text::to_trimmed_string(&self.buffer);
                    out.actions.push(Action::ExecuteSearch(command));
                }
                out
            },
            PaletteKey::Escape => {
                self.buffer = Vec::new();
                self.cursor_position = 0;
                let mut out = Emitted::none();
                out.actions.push(Action::ChangeMode(Mode::Normal));
                out.actions.push(Action::Render);
                out
            },
            PaletteKey::Enter => {
                let command = text::to_trimmed_string(&self.buffer);
                self.buffer = Vec::new();
                self.cursor_position = 0;
                self.active = false;
                let mut out = Emitted::none();
                out.events.push(AppEvent::CommandPaletteClosed);
                if self.mode == Mode::CommandEntry {
                    out.actions.push(Action::ExecuteCommand(command));
                } else if self.mode == Mode::SearchEntry {
                    out.actions.push(Action::ExecuteSearch(command));
                }
                out.actions.push(Action::ChangeMode(Mode::Normal));
                out.actions.push(Action::Render);
                out
            },
            PaletteKey::Backspace => {
                if self.cursor_position > 0 {
                    self.buffer.remove(self.cursor_position - 1);
                    self.cursor_position = self.cursor_position - 1;
                    let mut out = Emitted::none();
                    out.actions.push(Action::Render);
                    if self.mode == Mode::SearchEntry {
                        let command = text::to_trimmed_string(&self.buffer);
                        out.actions.push(Action::ExecuteSearch(command));
                    }
                    out
                } else {
                    Emitted::none()
                }
            },
            PaletteKey::Other => Emitted::none(),
        }
    }
}

} // verus!
