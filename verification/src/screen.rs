//! The mutually exclusive top-level screens, as a closed tagged union with
//! exhaustiveness-checked dispatch, and the events the orchestrator routes to
//! whichever screen is active.

use vstd::prelude::*;
use crate::input::{KeyCode, MouseButton};
use crate::state::{Pt, State, StateSwitch};
use crate::status::PlatformCursor;
use crate::world::World;

verus! {

/// A normalized device event as handed to the active screen.
#[derive(Debug, Copy, Clone, PartialEq, Eq, Structural)]
pub enum Event {
    Key(KeyCode),
    Mouse(MouseButton),
}

/// What pressing a menu button does.
#[derive(Debug, Copy, Clone, PartialEq, Eq, Structural)]
pub enum Callback {
    SwitchPlay,
}

/// An axis-aligned screen rectangle, in pixels.
#[derive(Debug, Copy, Clone, PartialEq, Eq, Structural)]
pub struct Rect {
    pub x: i32,
    pub y: i32,
    pub w: i32,
    pub h: i32,
}

impl Rect {
    /// Whether the point lies inside this rectangle.
    pub open spec fn spec_contains(self, p: Pt) -> bool {
        self.x <= p.x < self.x + self.w && self.y <= p.y < self.y + self.h
    }
}

/// The rectangle of the `i`th stacked menu button for a viewport `w` wide.
pub fn button_rect(w: u32, i: u32) -> (r: Rect)
    requires
        w <= 0x7FFF_FFFF,
        i <= 10000,
    ensures
        r == (Rect {
            x: (3 * w as i64 / 7) as i32,
            y: (64 + i * 68) as i32,
            w: (w as i64 / 7) as i32,
            h: 64,
        }),
{
    let x = (3 * (w as i64) / 7) as i32;
    let y = (64 + (i as i64) * 68) as i32;
    Rect { x, y, w: ((w as i64) / 7) as i32, h: 64 }
}

/// A clickable menu button and what clicking it does.
#[derive(Debug, Copy, Clone, PartialEq, Eq, Structural)]
pub struct Button {
    pub rect: Rect,
    pub callback: Callback,
}

impl Button {
    /// Whether the point lies on this button.
    pub fn in_bounds(&self, p: Pt) -> (r: bool)
        ensures
            r == self.rect.spec_contains(p),
    {
        let x = self.rect.x as i64;
        let y = self.rect.y as i64;
        let w = self.rect.w as i64;
        let h = self.rect.h as i64;
        x <= p.x && p.x < x + w && y <= p.y && p.y < y + h
    }
}

/// The main menu screen: a stack of buttons.
#[derive(Debug, Clone)]
pub struct Menu {
    pub buttons: Vec<Button>,
}

impl Menu {
    /// Whether some button of this menu lies under the point.
    pub open spec fn hit(self, p: Pt) -> bool {
        exists|i: int| 0 <= i < self.buttons@.len() && self.buttons@[i].rect.spec_contains(p)
    }

    /// Builds the menu for the given shared state: one play button laid out
    /// from the viewport width.
    pub fn new(s: &State) -> (m: Menu)
        requires
            s.width <= 0x7FFF_FFFF,
        ensures
            m.buttons@.len() == 1,
            m.buttons@[0].callback == Callback::SwitchPlay,
            m.buttons@[0].rect == (Rect {
                x: (3 * s.width as i64 / 7) as i32,
                y: 64,
                w: (s.width as i64 / 7) as i32,
                h: 64,
            }),
    {
        let rect = button_rect(s.width, 0);
        let mut buttons: Vec<Button> = Vec::new();
        buttons.push(Button { rect, callback: Callback::SwitchPlay });
        Menu { buttons }
    }

    /// A left-mouse release over a button fires its callback: the play
    /// button requests the transition to the play screen.
    pub fn event_up(&mut self, s: &mut State, event: Event)
        ensures
            *final(self) == *old(self),
            event == Event::Mouse(MouseButton::Left) && old(self).hit(old(s).mouse) ==> *final(s)
                == (State { switch_state: Some(StateSwitch::Play), ..*old(s) }),
            !(event == Event::Mouse(MouseButton::Left) && old(self).hit(old(s).mouse))
                ==> *final(s) == *old(s),
    {
        if let Event::Mouse(MouseButton::Left) = event {
            let mut i: usize = 0;
            let mut any_hit: bool = false;
            while i < self.buttons.len()
                invariant
                    0 <= i <= self.buttons@.len(),
                    *self == *old(self),
                    any_hit == exists|j: int|
                        0 <= j < i && self.buttons@[j].rect.spec_contains(old(s).mouse),
                    any_hit ==> *s == (State {
                        switch_state: Some(StateSwitch::Play),
                        ..*old(s)
                    }),
                    !any_hit ==> *s == *old(s),
                decreases self.buttons@.len() - i,
            {
                if self.buttons[i].in_bounds(s.mouse) {
                    match self.buttons[i].callback {
                        Callback::SwitchPlay => {
                            s.switch(StateSwitch::Play);
                        },
                    }
                    any_hit = true;
                }
                i += 1;
            }
        }
    }
}

/// The play screen: the world grid and the play-state bookkeeping this core
/// carries for it.
#[derive(Debug, Clone)]
pub struct Play {
    pub world: World,
    pub time: usize,
    pub cur_pickup: Option<usize>,
}

impl Play {
    /// Builds the play screen and hides the cursor, as entering play does.
    pub fn new(platform: &mut PlatformCursor) -> (p: Play)
        ensures
            p.world.grid.wf(),
            p.world.grid.spec_width() == 16,
            p.world.grid.spec_height() == 16,
            p.time == 0,
            p.cur_pickup == None::<usize>,
            *final(platform) == (PlatformCursor { hidden: true, ..*old(platform) }),
    {
        platform.hidden = true;
        Play { world: World::new(16, 16), time: 0, cur_pickup: None }
    }
}

/// The active screen: exactly one exists at a time, owned by the
/// orchestrator and replaced destructively on transition.
#[derive(Debug)]
pub enum Screen {
    Menu(Menu),
    Play(Play),
}

impl Screen {
    /// One fixed-timestep simulation step. Neither screen simulates anything
    /// in this core, so the step changes nothing.
    pub fn update(&mut self, s: &mut State)
        ensures
            *final(self) == *old(self),
            *final(s) == *old(s),
    {
    }

    /// The once-per-rendered-frame logic hook; nothing to do in this core.
    pub fn logic(&mut self, s: &mut State)
        ensures
            *final(self) == *old(self),
            *final(s) == *old(s),
    {
    }

    /// A key or button went down. Neither screen reacts to down events.
    pub fn event_down(&mut self, s: &mut State, event: Event)
        ensures
            *final(self) == *old(self),
            *final(s) == *old(s),
    {
    }

    /// A key or button was released: the menu checks its buttons, the play
    /// screen ignores the event.
    pub fn event_up(&mut self, s: &mut State, event: Event)
        ensures
            *final(self) == *old(self),
            ({
                match *old(self) {
                    Screen::Menu(m) => {
                        &&& (event == Event::Mouse(MouseButton::Left) && m.hit(old(s).mouse)
                            ==> *final(s) == (State {
                            switch_state: Some(StateSwitch::Play),
                            ..*old(s)
                        }))
                        &&& (!(event == Event::Mouse(MouseButton::Left) && m.hit(old(s).mouse))
                            ==> *final(s) == *old(s))
                    },
                    Screen::Play(_) => *final(s) == *old(s),
                }
            }),
    {
        match self {
            Screen::Menu(m) => m.event_up(s, event),
            Screen::Play(_) => (),
        }
    }

    /// The world the active screen owns, if it owns one.
    pub fn get_world(&self) -> (r: Option<&World>)
        ensures
            match *self {
                Screen::Menu(_) => r is None,
                Screen::Play(p) => r matches Some(w) && *w == p.world,
            },
    {
        match self {
            Screen::Menu(_) => None,
            Screen::Play(p) => Some(&p.world),
        }
    }
}

} // verus!
