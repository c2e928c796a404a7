//! The top-level orchestrator: owns the shared state, the active screen, the
//! console and its status, and the log capture; consumes pending screen
//! transitions at the top of each frame and routes every raw platform event
//! by one fixed priority order: quit combination first, then console-open
//! gating, then the console toggle key, then normal screen dispatch.

use vstd::prelude::*;
use crate::console::{execute_rel, lemma_trimmed_stable_push, max_lines, trimmed, Console, PROMPT_Y};
use crate::input::{InputAggregator, KeyCode, Mods, MouseButton};
use crate::logcap::{appended, spec_colour, Fragment, Level, LogCapture};
use crate::screen::{Event, Menu, Play, Screen};
use crate::state::{Pt, State, StateSwitch};
use crate::status::{ConsoleStatus, CursorIcon, PlatformCursor};

verus! {

/// `history` after folding the drained fragments into it one at a time, each
/// append followed by the oldest-first eviction that keeps the height budget.
pub open spec fn folded(history: Seq<Fragment>, drained: Seq<Fragment>) -> Seq<Fragment>
    decreases drained.len(),
{
    if drained.len() == 0 {
        history
    } else {
        trimmed(folded(history, drained.drop_last()).push(drained.last()))
    }
}

/// Folding drained records into history one line at a time, evicting the
/// oldest line after each append, leaves exactly the newest lines of the
/// whole concatenation: a frame's drain also evicts strictly oldest first.
pub proof fn lemma_folded_keeps_newest(h: Seq<Fragment>, fs: Seq<Fragment>)
    requires
        h.len() <= max_lines(),
    ensures
        folded(h, fs) == trimmed(h + fs),
    decreases fs.len(),
{
    if fs.len() == 0 {
        assert(h + fs =~= h);
    } else {
        lemma_folded_keeps_newest(h, fs.drop_last());
        lemma_trimmed_stable_push(h + fs.drop_last(), fs.last());
        assert((h + fs.drop_last()).push(fs.last()) =~= h + fs);
    }
}

/// The control characters the console's text channel interprets.
pub open spec fn is_control_char(c: char) -> bool {
    (c as u32) < 0x20 || (0x7f <= (c as u32) && (c as u32) < 0xa0)
}

pub fn is_control(c: char) -> (r: bool)
    ensures
        r == is_control_char(c),
{
    (c as u32) < 0x20 || ((c as u32) >= 0x7f && (c as u32) < 0xa0)
}

/// The top-level orchestrator.
#[derive(Debug)]
pub struct Master {
    pub gs: Screen,
    pub state: State,
    pub console_status: ConsoleStatus,
    pub console: Console,
    pub capture: LogCapture,
    pub input: InputAggregator,
}

impl Master {
    /// The pieces with their own invariants are well formed.
    pub open spec fn wf(self) -> bool {
        self.console.wf() && self.input.wf()
    }

    /// Make a new master object: menu screen active, console closed, nothing
    /// captured, no key held.
    pub fn new(width: u32, height: u32) -> (m: Master)
        requires
            width <= 0x7FFF_FFFF,
        ensures
            m.wf(),
            m.state == (State {
                width,
                height,
                mouse: Pt { x: 0, y: 0 },
                offset: Pt { x: 0, y: 0 },
                switch_state: None::<StateSwitch>,
                continuing: true,
            }),
            m.console_status == ConsoleStatus::Closed,
            m.gs matches Screen::Menu(menu) && menu.buttons@.len() == 1,
            m.capture.records() == Seq::<Fragment>::empty(),
            m.console.history().len() == 1,
            m.console.prompt() == Seq::<char>::empty(),
            m.input == InputAggregator::spec_init(),
    {
        let state = State::new(width, height);
        let menu = Menu::new(&state);
        Master {
            gs: Screen::Menu(menu),
            state,
            console_status: ConsoleStatus::Closed,
            console: Console::new(),
            capture: LogCapture::new(),
            input: InputAggregator::new(),
        }
    }

    /// The per-frame update. First the pending transition is consumed: the
    /// cursor affordance is reset to a default visible arrow and the named
    /// screen is constructed in place of the old one (entering play hides
    /// the cursor again). Then, with the console open, the simulation clock
    /// is frozen — the elapsed fixed steps are discarded and the capture is
    /// drained into the console history instead; with it closed, the screen
    /// simulates one step per elapsed fixed-timestep unit and runs its
    /// per-frame logic hook once.
    pub fn update(&mut self, platform: &mut PlatformCursor, steps: u32)
        requires
            old(self).wf(),
            old(self).state.width <= 0x7FFF_FFFF,
        ensures
            final(self).wf(),
            final(self).state == (State {
                switch_state: None::<StateSwitch>,
                ..old(self).state
            }),
            final(self).console_status == old(self).console_status,
            final(self).input == old(self).input,
            // the transition slot is consumed first
            ({
                match old(self).state.switch_state {
                    None => final(self).gs == old(self).gs && *final(platform) == *old(platform),
                    Some(StateSwitch::Menu) => final(self).gs matches Screen::Menu(m)
                        && m.buttons@.len() == 1 && *final(platform) == (PlatformCursor {
                        icon: CursorIcon::Default,
                        hidden: false,
                    }),
                    Some(StateSwitch::Play) => final(self).gs matches Screen::Play(p)
                        && p.world.grid.wf() && p.world.grid.spec_width() == 16
                        && p.world.grid.spec_height() == 16 && *final(platform) == (PlatformCursor {
                        icon: CursorIcon::Default,
                        hidden: true,
                    }),
                }
            }),
            // an open console freezes the clock and drains the capture
            old(self).console_status matches ConsoleStatus::Open { .. } ==> {
                &&& final(self).console.history() == folded(
                    old(self).console.history(),
                    old(self).capture.records(),
                )
                &&& final(self).console.prompt() == old(self).console.prompt()
                &&& final(self).capture.records() == Seq::<Fragment>::empty()
            },
            old(self).console_status == ConsoleStatus::Closed ==> {
                &&& final(self).console == old(self).console
                &&& final(self).capture == old(self).capture
            },
    {
        let pending = self.state.switch_state;
        self.state.switch_state = None;
        if let Some(gsb) = pending {
            platform.hidden = false;
            platform.icon = CursorIcon::Default;
            self.gs = match gsb {
                StateSwitch::Play => Screen::Play(Play::new(platform)),
                StateSwitch::Menu => Screen::Menu(Menu::new(&self.state)),
            };
        }
        let ghost gs1 = self.gs;
        if self.console_status.is_open() {
            let ghost h0 = self.console.history();
            let ghost recs = self.capture.records();
            let mut drained = self.capture.empty();
            let ghost total = recs.len() as int;
            let ghost k: int = 0;
            while drained.len() > 0
                invariant
                    self.console.wf(),
                    self.gs == gs1,
                    self.console_status == old(self).console_status,
                    self.input == old(self).input,
                    0 <= k <= total,
                    total == recs.len(),
                    drained@ == recs.subrange(k, total),
                    self.console.history() == folded(h0, recs.subrange(0, k)),
                    self.console.prompt() == old(self).console.prompt(),
                    self.state == (State { switch_state: None::<StateSwitch>, ..old(self).state }),
                    self.capture.records() == Seq::<Fragment>::empty(),
                decreases drained@.len(),
            {
                let ghost pre = drained@;
                let f = drained.remove(0);
                proof {
                    assert(f == recs[k]);
                    assert(drained@ =~= recs.subrange(k + 1, total));
                }
                self.console.push_line(f);
                proof {
                    let sub1 = recs.subrange(0, k + 1);
                    assert(sub1.drop_last() =~= recs.subrange(0, k));
                    assert(sub1.last() == recs[k]);
                }
                proof {
                    k = k + 1;
                }
            }
            proof {
                assert(recs.subrange(0, total) =~= recs);
                assert(recs.subrange(k, total).len() == 0);
            }
        } else {
            let mut i: u32 = 0;
            while i < steps
                invariant
                    self.wf(),
                    self.gs == gs1,
                    self.console == old(self).console,
                    self.capture == old(self).capture,
                    self.input == old(self).input,
                    self.console_status == old(self).console_status,
                    self.state == (State { switch_state: None::<StateSwitch>, ..old(self).state }),
                decreases steps - i,
            {
                self.gs.update(&mut self.state);
                i += 1;
            }
            self.gs.logic(&mut self.state);
        }
    }

    /// Handle key down events: repeats are discarded; the aggregator sees
    /// every real transition first; the quit combination (shift + escape)
    /// always terminates, console open or not; otherwise the event reaches
    /// the screen only while the console is closed.
    pub fn key_down_event(&mut self, keycode: KeyCode, km: Mods, repeat: bool)
        requires
            old(self).wf(),
        ensures
            final(self).wf(),
            final(self).console == old(self).console,
            final(self).capture == old(self).capture,
            final(self).console_status == old(self).console_status,
            final(self).gs == old(self).gs,
            repeat ==> *final(self) == *old(self),
            !repeat ==> final(self).input == (InputAggregator {
                mods: km,
                ..old(self).input.spec_key_down(keycode)
            }),
            !repeat && keycode == KeyCode::Escape && km.shift ==> final(self).state == (State {
                continuing: false,
                ..old(self).state
            }),
            !(!repeat && keycode == KeyCode::Escape && km.shift) ==> final(self).state == old(
                self,
            ).state,
    {
        if repeat {
            return;
        }
        self.input.key_down(keycode);
        self.input.set_mods(km);
        if keycode == KeyCode::Escape && km.shift {
            self.state.continuing = false;
        } else if !self.console_status.is_open() {
            self.gs.event_down(&mut self.state, Event::Key(keycode));
        }
    }

    /// Handle key release events: the aggregator sees the transition first;
    /// while the console is closed, the toggle key opens it (capturing the
    /// cursor) and any other key reaches the screen; while it is open, the
    /// release goes no further.
    pub fn key_up_event(&mut self, platform: &PlatformCursor, keycode: KeyCode)
        requires
            old(self).wf(),
        ensures
            final(self).wf(),
            final(self).console == old(self).console,
            final(self).capture == old(self).capture,
            final(self).gs == old(self).gs,
            final(self).state == old(self).state,
            final(self).input == old(self).input.spec_key_up(keycode),
            ({
                let was_closed = old(self).console_status == ConsoleStatus::Closed;
                if was_closed && keycode == KeyCode::Tab {
                    final(self).console_status == ConsoleStatus::Open {
                        cursor: platform.icon,
                        cursor_hidden: platform.hidden,
                    }
                } else {
                    final(self).console_status == old(self).console_status
                }
            }),
    {
        self.input.key_up(keycode);
        if !self.console_status.is_open() {
            if keycode == KeyCode::Tab {
                self.console_status.open(platform);
            } else {
                self.gs.event_up(&mut self.state, Event::Key(keycode));
            }
        }
    }

    /// Handle mouse down events: latch the button, then dispatch to the
    /// screen only while the console is closed.
    pub fn mouse_button_down_event(&mut self, btn: MouseButton)
        requires
            old(self).wf(),
        ensures
            final(self).wf(),
            *final(self) == (Master {
                input: {
                    let a = old(self).input;
                    match btn {
                        MouseButton::Left => InputAggregator { mouse_left: true, ..a },
                        MouseButton::Middle => InputAggregator { mouse_middle: true, ..a },
                        MouseButton::Right => InputAggregator { mouse_right: true, ..a },
                        MouseButton::Other => a,
                    }
                },
                ..*old(self)
            }),
    {
        self.input.mouse_down(btn);
        if !self.console_status.is_open() {
            self.gs.event_down(&mut self.state, Event::Mouse(btn));
        }
    }

    /// Handle mouse release events: release the latch, then dispatch to the
    /// screen only while the console is closed; over the menu this is where
    /// a click on the play button lands.
    pub fn mouse_button_up_event(&mut self, btn: MouseButton)
        requires
            old(self).wf(),
        ensures
            final(self).wf(),
            final(self).console == old(self).console,
            final(self).capture == old(self).capture,
            final(self).console_status == old(self).console_status,
            final(self).gs == old(self).gs,
            final(self).input == (match btn {
                MouseButton::Left => InputAggregator { mouse_left: false, ..old(self).input },
                MouseButton::Middle => InputAggregator { mouse_middle: false, ..old(self).input },
                MouseButton::Right => InputAggregator { mouse_right: false, ..old(self).input },
                MouseButton::Other => old(self).input,
            }),
            ({
                let clicked = old(self).console_status == ConsoleStatus::Closed && btn
                    == MouseButton::Left && (old(self).gs matches Screen::Menu(m) && m.hit(
                    old(self).state.mouse,
                ));
                if clicked {
                    final(self).state == (State {
                        switch_state: Some(StateSwitch::Play),
                        ..old(self).state
                    })
                } else {
                    final(self).state == old(self).state
                }
            }),
    {
        self.input.mouse_up(btn);
        if !self.console_status.is_open() {
            self.gs.event_up(&mut self.state, Event::Mouse(btn));
        }
    }

    /// Handles mouse movement events: the latest position is recorded, and
    /// an open console forces the live cursor affordance depending on
    /// whether the mouse is over the game world or the console panel.
    pub fn mouse_motion_event(&mut self, platform: &mut PlatformCursor, x: i64, y: i64)
        requires
            old(self).wf(),
        ensures
            final(self).wf(),
            *final(self) == (Master {
                state: (State { mouse: Pt { x, y }, ..old(self).state }),
                ..*old(self)
            }),
            *final(platform) == (match old(self).console_status {
                ConsoleStatus::Open { cursor, cursor_hidden } => if y > PROMPT_Y as i64 {
                    PlatformCursor { icon: cursor, hidden: cursor_hidden }
                } else {
                    PlatformCursor { icon: CursorIcon::Default, hidden: false }
                },
                ConsoleStatus::Closed => *old(platform),
            }),
    {
        self.state.mouse = Pt { x, y };
        self.console_status.adjust_cursor(platform, y);
    }

    /// The console's separate text-input channel, live only while the
    /// console is open. Control characters are interpreted: backspace edits
    /// the prompt, escape closes the console and restores the cursor, tab is
    /// reserved for completion, the paste control appends the clipboard text
    /// the driver read (a failed read is reported through the log path),
    /// return executes the prompt, and any other control character leaves an
    /// unknown-control-character notice in history. Everything else is
    /// appended to the prompt verbatim. With the console closed the channel
    /// is ignored.
    pub fn text_input_event(
        &mut self,
        platform: &mut PlatformCursor,
        c: char,
        clipboard: Option<&Vec<char>>,
    )
        requires
            old(self).wf(),
        ensures
            final(self).wf(),
            final(self).gs == old(self).gs,
            final(self).input == old(self).input,
            old(self).console_status == ConsoleStatus::Closed ==> *final(self) == *old(self)
                && *final(platform) == *old(platform),
            ({
                let open = old(self).console_status matches ConsoleStatus::Open { .. };
                let c0 = old(self).console;
                let c1 = final(self).console;
                &&& (open && !is_control_char(c) ==> {
                    &&& c1.history() == c0.history()
                    &&& c1.prompt() == c0.prompt().push(c)
                    &&& final(self).state == old(self).state
                    &&& final(self).capture == old(self).capture
                    &&& final(self).console_status == old(self).console_status
                    &&& *final(platform) == *old(platform)
                })
                &&& (open && c == '\u{8}' ==> {
                    &&& c1.history() == c0.history()
                    &&& (c0.prompt().len() == 0 ==> c1.prompt() == c0.prompt())
                    &&& (c0.prompt().len() > 0 ==> c1.prompt() == c0.prompt().drop_last())
                    &&& final(self).state == old(self).state
                    &&& final(self).capture == old(self).capture
                    &&& final(self).console_status == old(self).console_status
                    &&& *final(platform) == *old(platform)
                })
                &&& (open && (c == '\u{7f}' || c == '\t') ==> {
                    &&& c1 == c0
                    &&& final(self).state == old(self).state
                    &&& final(self).capture == old(self).capture
                    &&& final(self).console_status == old(self).console_status
                    &&& *final(platform) == *old(platform)
                })
                &&& (open && c == '\u{1b}' ==> {
                    &&& c1 == c0
                    &&& final(self).state == old(self).state
                    &&& final(self).capture == old(self).capture
                    &&& final(self).console_status == ConsoleStatus::Closed
                    &&& *final(platform) == old(self).console_status.spec_close_cursor(
                        *old(platform),
                    )
                })
                &&& (open && c == '\u{16}' ==> {
                    &&& final(self).console_status == old(self).console_status
                    &&& *final(platform) == *old(platform)
                    &&& final(self).state == old(self).state
                    &&& (clipboard matches Some(pasted) ==> {
                        &&& c1.history() == c0.history()
                        &&& c1.prompt() == c0.prompt() + pasted@
                        &&& final(self).capture == old(self).capture
                    })
                    &&& (clipboard is None ==> {
                        &&& c1 == c0
                        &&& appended(
                            old(self).capture.records(),
                            final(self).capture.records(),
                            "Failed to read clipboard"@ + seq!['\n'],
                            spec_colour(Level::Error),
                        )
                    })
                })
                &&& (open && c == '\r' ==> {
                    &&& final(self).console_status == old(self).console_status
                    &&& *final(platform) == *old(platform)
                    &&& execute_rel(
                        c0,
                        c1,
                        old(self).state,
                        final(self).state,
                        old(self).capture,
                        final(self).capture,
                    )
                })
                &&& (open && is_control_char(c) && c != '\u{8}' && c != '\u{7f}' && c != '\t'
                    && c != '\u{1b}' && c != '\u{16}' && c != '\r' ==> {
                    &&& c1.prompt() == c0.prompt()
                    &&& c1.history() == trimmed(c0.history().push(c1.history().last()))
                    &&& c1.history().len() > 0
                    &&& c1.history().last().text@ == "Unknown control character "@ + seq![c]
                        + seq!['\n']
                    &&& c1.history().last().colour == None::<crate::logcap::Colour>
                    &&& final(self).state == old(self).state
                    &&& final(self).capture == old(self).capture
                    &&& final(self).console_status == old(self).console_status
                    &&& *final(platform) == *old(platform)
                })
            }),
    {
        if self.console_status.is_open() {
            if is_control(c) {
                if c == '\u{8}' {
                    // Backspace
                    self.console.prompt_pop();
                } else if c == '\u{7f}' {
                    // Delete
                } else if c == '\u{1b}' {
                    // Escape
                    self.console_status.close(platform);
                } else if c == '\t' {
                    // Reserved for tab completion
                } else if c == '\u{16}' {
                    // Paste
                    match clipboard {
                        Some(pasted) => self.console.prompt_extend(pasted),
                        None => {
                            let msg = crate::text::chars_of("Failed to read clipboard");
                            self.capture.append_record(Level::Error, msg);
                        },
                    }
                } else if c == '\r' {
                    // Return
                    self.console.execute(&mut self.state, &mut self.capture);
                } else {
                    let mut text = crate::text::chars_of("Unknown control character ");
                    let ghost head = text@;
                    text.push(c);
                    text.push('\n');
                    proof {
                        assert(text@ =~= head + seq![c] + seq!['\n']);
                    }
                    self.console.push_line(Fragment { text, colour: None });
                }
            } else {
                self.console.prompt_push(c);
            }
        }
    }

    /// The quit prompt from the platform: never cancel quitting.
    pub fn quit_event(&mut self) -> (r: bool)
        ensures
            r == false,
            *final(self) == *old(self),
    {
        false
    }
}

} // verus!
