use vstd::prelude::*;

use crate::action::Action;
use crate::action::Emitted;
use crate::circuit_breaker::breaker_step;
use crate::circuit_breaker::breaker_trips;
use crate::circuit_breaker::default_exempt;
use crate::circuit_breaker::BreakerTrip;
use crate::circuit_breaker::CircuitBreaker;
use crate::command_palette::palette_after_change_mode;
use crate::command_palette::palette_after_key;
use crate::command_palette::PaletteKey;
use crate::command_palette::PaletteView;
use crate::event::AppEvent;
use crate::keys::resolver_buffer_after;
use crate::keys::resolver_emits;
use crate::keys::KeyBindings;
use crate::keys::KeyPress;
use crate::keys::KeyResolver;
use crate::mode::Mode;

verus! {

use vstd::string::StringExecFns;

/// The dispatch loop's own state: the active mode, the lifecycle flags, the
/// circuit breaker it feeds every action through, and the multi-key
/// resolver for normal-mode input.  Channels, the terminal and the
/// components around the loop live outside this crate.
pub struct AppCore {
    pub mode: Mode,
    pub should_quit: bool,
    pub should_suspend: bool,
    pub breaker: CircuitBreaker,
    pub resolver: KeyResolver,
}

/// The loop state the core-global effects touch.
pub ghost struct CoreView {
    pub mode: Mode,
    pub should_quit: bool,
    pub should_suspend: bool,
}

/// The loop state after one action's core-global effects: quit and
/// suspend/resume set the lifecycle flags, a mode change records the new
/// mode, everything else leaves the loop state alone.
pub open spec fn core_after_action(c: CoreView, a: Action) -> CoreView {
    match a {
        Action::Quit => CoreView { should_quit: true, ..c },
        Action::Suspend => CoreView { should_suspend: true, ..c },
        Action::Resume => CoreView { should_suspend: false, ..c },
        Action::ChangeMode(m) => CoreView { mode: m, ..c },
        _ => c,
    }
}

/// What one dispatch hands back to the driving loop.
#[derive(Debug)]
pub struct DispatchOutcome {
    /// The breaker's fatal diagnostic; when present the loop must halt and
    /// the rest of the outcome is empty.
    pub fatal: Option<BreakerTrip>,
    /// Follow-up actions and events the loop must queue.
    pub out: Emitted,
    /// Whether a redraw pass over all components is due.
    pub redraw: bool,
}

impl AppCore {
    /// The core state the spec-level transition talks about.
    pub open spec fn loop_state(&self) -> CoreView {
        CoreView {
            mode: self.mode,
            should_quit: self.should_quit,
            should_suspend: self.should_suspend,
        }
    }

    /// A fresh loop: normal mode, no lifecycle flag set, an empty breaker
    /// with the default exemptions, an empty key buffer.
    pub fn new() -> (app: AppCore)
        ensures
            app.mode == Mode::Normal,
            !app.should_quit,
            !app.should_suspend,
            app.breaker.stamps() == Seq::<(u64, u64)>::empty(),
            forall|k: u64| #[trigger] app.breaker.exempt().contains(k) <==> default_exempt(k),
            app.resolver@ == Seq::<KeyPress>::empty(),
    {
        AppCore {
            mode: Mode::Normal,
            should_quit: false,
            should_suspend: false,
            breaker: CircuitBreaker::new(),
            resolver: KeyResolver::new(),
        }
    }

    /// Route one terminal key press.  While a modal palette is active the
    /// resolver must not see keys, so the press resolves to nothing; in
    /// normal mode it goes through the keybinding resolver.
    pub fn handle_key<'a>(&mut self, table: &'a KeyBindings, key: KeyPress) -> (emitted: Option<
        &'a Action,
    >)
        ensures
            final(self).loop_state() == old(self).loop_state(),
            final(self).breaker.stamps() == old(self).breaker.stamps(),
            final(self).breaker.exempt() == old(self).breaker.exempt(),
            old(self).mode.is_modal() ==> emitted is None && final(self).resolver@ == old(
                self,
            ).resolver@,
            !old(self).mode.is_modal() ==> {
                &&& final(self).resolver@ == resolver_buffer_after(
                    table@,
                    Mode::Normal,
                    old(self).resolver@,
                    key,
                )
                &&& (match emitted {
                    Some(a) => resolver_emits(table@, Mode::Normal, old(self).resolver@, key)
                        == Some(*a),
                    None => resolver_emits(table@, Mode::Normal, old(self).resolver@, key) is None,
                })
            },
    {
        if self.mode != Mode::Normal {
            None
        } else {
            self.resolver.on_key(table, Mode::Normal, key)
        }
    }

    /// Dispatch one action: feed it to the circuit breaker, stop with the
    /// fatal diagnostic if it trips, and otherwise apply the core-global
    /// effects — lifecycle flags, redraw on render or resize, the mode
    /// change with its event, palette openers, and the wrapping of an error
    /// into a notification.  The caller then forwards the same action,
    /// unmodified, to every component.
    pub fn dispatch(&mut self, action: &Action, now_ms: u64) -> (outcome: DispatchOutcome)
        ensures
            final(self).breaker.stamps() == breaker_step(
                old(self).breaker.stamps(),
                old(self).breaker.exempt(),
                action.kind(),
                now_ms,
            ),
            final(self).breaker.exempt() == old(self).breaker.exempt(),
            outcome.fatal is Some <==> breaker_trips(
                old(self).breaker.stamps(),
                old(self).breaker.exempt(),
                action.kind(),
                now_ms,
            ),
            (match outcome.fatal {
                Some(trip) => {
                    &&& trip.kind == action.kind()
                    &&& trip.kind_name@ == action.kind_name_spec()
                    &&& final(self).loop_state() == old(self).loop_state()
                    &&& final(self).resolver@ == old(self).resolver@
                    &&& outcome.out.actions@.len() == 0
                    &&& outcome.out.events@.len() == 0
                    &&& !outcome.redraw
                },
                None => {
                    &&& final(self).loop_state() == core_after_action(old(self).loop_state(), *action)
                    &&& (final(self).resolver@ == if *action is Tick {
                        Seq::<KeyPress>::empty()
                    } else {
                        old(self).resolver@
                    })
                    &&& outcome.redraw == (*action is Render || *action is Resize)
                    &&& (match *action {
                        Action::Error(msg) => {
                            &&& outcome.out.actions@.len() == 1
                            &&& (outcome.out.actions@[0] matches Action::Notify(n)
                                && n matches crate::notifications::Notification::Error(s) && s@
                                == "Error: "@ + msg@)
                            &&& outcome.out.events@.len() == 0
                        },
                        Action::ChangeMode(m) => {
                            &&& outcome.out.actions@.len() == 0
                            &&& outcome.out.events@.len() == 1
                            &&& outcome.out.events@[0] == AppEvent::ModeChanged(m)
                        },
                        Action::OpenCommandPalette => {
                            &&& outcome.out.actions@.len() == 2
                            &&& outcome.out.actions@[0] == Action::ChangeMode(Mode::CommandEntry)
                            &&& outcome.out.actions@[1] == Action::Render
                            &&& outcome.out.events@.len() == 0
                        },
                        Action::OpenSearchPalette => {
                            &&& outcome.out.actions@.len() == 2
                            &&& outcome.out.actions@[0] == Action::ChangeMode(Mode::SearchEntry)
                            &&& outcome.out.actions@[1] == Action::Render
                            &&& outcome.out.events@.len() == 0
                        },
                        _ => outcome.out.actions@.len() == 0 && outcome.out.events@.len() == 0,
                    })
                },
            }),
    {
        let verdict = self.breaker.check_action(action, now_ms);
        let mut out = Emitted::none();
        match verdict {
            Err(trip) => DispatchOutcome { fatal: Some(trip), out, redraw: false },
            Ok(()) => {
                let mut redraw = false;
                match action {
                    Action::Tick => {
                        self.resolver.on_tick();
                    },
                    Action::Quit => {
                        self.should_quit = true;
                    },
                    Action::Suspend => {
                        self.should_suspend = true;
                    },
                    Action::Resume => {
                        self.should_suspend = false;
                    },
                    Action::Render => {
                        redraw = true;
                    },
                    Action::Resize(..) => {
                        redraw = true;
                    },
                    Action::Error(msg) => {
                        let mut text = "Error: ".to_owned();
                        text.append(msg.as_str());
                        out.actions.push(
                            Action::Notify(crate::notifications::Notification::Error(text)),
                        );
                    },
                    Action::ChangeMode(m) => {
                        self.mode = *m;
                        out.events.push(AppEvent::ModeChanged(*m));
                    },
                    Action::OpenCommandPalette => {
                        out.actions.push(Action::ChangeMode(Mode::CommandEntry));
                        out.actions.push(Action::Render);
                    },
                    Action::OpenSearchPalette => {
                        out.actions.push(Action::ChangeMode(Mode::SearchEntry));
                        out.actions.push(Action::Render);
                    },
                    _ => {},
                }
                DispatchOutcome { fatal: None, out, redraw }
            },
        }
    }

    /// Apply one event from the event channel: a mode change moves the
    /// mode, a quit sets the flag, everything else is for components only.
    pub fn handle_app_event(&mut self, event: &AppEvent)
        ensures
            final(self).breaker.stamps() == old(self).breaker.stamps(),
            final(self).breaker.exempt() == old(self).breaker.exempt(),
            final(self).resolver@ == old(self).resolver@,
            (match *event {
                AppEvent::ModeChanged(m) => final(self).loop_state() == (CoreView {
                    mode: m,
                    ..old(self).loop_state()
                }),
                AppEvent::Quit => final(self).loop_state() == (CoreView {
                    should_quit: true,
                    ..old(self).loop_state()
                }),
                _ => final(self).loop_state() == old(self).loop_state(),
            }),
    {
        match event {
            AppEvent::ModeChanged(m) => {
                self.mode = *m;
            },
            AppEvent::Quit => {
                self.should_quit = true;
            },
            _ => {},
        }
    }
}

/// The mode round trip: opening the command palette and pressing escape
/// brings the loop back to normal mode, and the palette ends inactive with
/// no buffered input.  The escape key's emitted `ChangeMode(Normal)` is the
/// action the loop applies in the last two steps.
pub proof fn lemma_mode_round_trip(c: CoreView, p: PaletteView)
    ensures
        core_after_action(
            core_after_action(c, Action::ChangeMode(Mode::CommandEntry)),
            Action::ChangeMode(Mode::Normal),
        ).mode == Mode::Normal,
        palette_after_change_mode(
            palette_after_key(
                palette_after_change_mode(p, Mode::CommandEntry),
                PaletteKey::Escape,
            ),
            Mode::Normal,
        ).buffer == Seq::<char>::empty(),
        !palette_after_change_mode(
            palette_after_key(
                palette_after_change_mode(p, Mode::CommandEntry),
                PaletteKey::Escape,
            ),
            Mode::Normal,
        ).active,
{
}

} // verus!
