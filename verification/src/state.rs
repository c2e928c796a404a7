//! The shared control state handed to the active screen every frame: viewport
//! size, mouse position, camera offset, the pending screen transition and the
//! keep-running flag of the loop driver.

use vstd::prelude::*;

verus! {

/// The screen kinds a pending transition can name.
#[derive(Debug, Copy, Clone, PartialEq, Eq, Structural)]
pub enum StateSwitch {
    Menu,
    Play,
}

/// A point or offset on the screen, in pixels.
#[derive(Debug, Copy, Clone, PartialEq, Eq, Structural)]
pub struct Pt {
    pub x: i64,
    pub y: i64,
}

/// The state of the game shared between the orchestrator, the active screen
/// and console command execution.
#[derive(Debug, Copy, Clone, PartialEq, Eq, Structural)]
pub struct State {
    /// Viewport width in pixels.
    pub width: u32,
    /// Viewport height in pixels.
    pub height: u32,
    /// Latest mouse position.
    pub mouse: Pt,
    /// Camera offset applied to world drawing.
    pub offset: Pt,
    /// The pending screen transition; consumed once at the top of a frame.
    pub switch_state: Option<StateSwitch>,
    /// Cleared when the process has been asked to terminate.
    pub continuing: bool,
}

impl State {
    pub fn new(width: u32, height: u32) -> (s: State)
        ensures
            s == (State {
                width,
                height,
                mouse: Pt { x: 0, y: 0 },
                offset: Pt { x: 0, y: 0 },
                switch_state: None::<StateSwitch>,
                continuing: true,
            }),
    {
        State {
            width,
            height,
            mouse: Pt { x: 0, y: 0 },
            offset: Pt { x: 0, y: 0 },
            switch_state: None,
            continuing: true,
        }
    }

    /// Sets the offset so that the given point will be centered on the screen.
    pub fn focus_on(&mut self, p: Pt)
        requires
            -0x1_0000_0000 <= p.x <= 0x1_0000_0000,
            -0x1_0000_0000 <= p.y <= 0x1_0000_0000,
        ensures
            *final(self) == (State {
                offset: Pt {
                    x: (old(self).width as i64 / 2 - p.x) as i64,
                    y: (old(self).height as i64 / 2 - p.y) as i64,
                },
                ..*old(self)
            }),
    {
        self.offset = Pt { x: (self.width as i64) / 2 - p.x, y: (self.height as i64) / 2 - p.y };
    }

    /// Requests a screen transition; a second request before the orchestrator
    /// consumes the slot overwrites the first, last write wins.
    pub fn switch(&mut self, ss: StateSwitch)
        ensures
            *final(self) == (State { switch_state: Some(ss), ..*old(self) }),
    {
        self.switch_state = Some(ss);
    }
}

} // verus!
