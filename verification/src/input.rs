//! Input aggregation: movement-intent axes, mouse-button latches and modifier
//! flags, kept up to date from raw key and mouse transitions regardless of
//! whether the console overlay is open.

use vstd::prelude::*;

verus! {

/// The key codes this core reads; every other key arrives as `Other`.
#[derive(Debug, Copy, Clone, PartialEq, Eq, Structural)]
pub enum KeyCode {
    W,
    A,
    S,
    D,
    Up,
    Down,
    Left,
    Right,
    Tab,
    Escape,
    Return,
    Other,
}

/// The mouse buttons this core latches; every other button arrives as `Other`.
#[derive(Debug, Copy, Clone, PartialEq, Eq, Structural)]
pub enum MouseButton {
    Left,
    Middle,
    Right,
    Other,
}

/// Modifier flags as delivered alongside a key event.
#[derive(Debug, Copy, Clone, PartialEq, Eq, Structural, Default)]
pub struct Mods {
    pub shift: bool,
    pub ctrl: bool,
    pub alt: bool,
}

/// One for a held key, zero for a released one.
pub open spec fn b2i(b: bool) -> int {
    if b {
        1
    } else {
        0
    }
}

/// Tracks which movement keys are held, the two signed intent axes derived
/// from them, the mouse-button latches and the modifier flags.
///
/// A repeated key-down for a key that is already held is ignored, so the axes
/// never drift: they always equal the net contribution of the held keys.
#[derive(Debug, Copy, Clone, PartialEq, Eq, Structural)]
pub struct InputAggregator {
    pub held_w: bool,
    pub held_a: bool,
    pub held_s: bool,
    pub held_d: bool,
    pub held_up: bool,
    pub held_down: bool,
    pub held_left: bool,
    pub held_right: bool,
    pub hor_axis: i8,
    pub ver_axis: i8,
    pub mouse_left: bool,
    pub mouse_middle: bool,
    pub mouse_right: bool,
    pub mods: Mods,
}

impl InputAggregator {
    /// The horizontal intent the held keys add up to: rightward positive.
    pub open spec fn spec_hor(self) -> int {
        b2i(self.held_d) + b2i(self.held_right) - b2i(self.held_a) - b2i(self.held_left)
    }

    /// The vertical intent the held keys add up to: downward positive.
    pub open spec fn spec_ver(self) -> int {
        b2i(self.held_s) + b2i(self.held_down) - b2i(self.held_w) - b2i(self.held_up)
    }

    /// The axes agree with the held keys; nothing has drifted.
    pub open spec fn wf(self) -> bool {
        self.hor_axis == self.spec_hor() && self.ver_axis == self.spec_ver()
    }

    /// Whether `k` is a movement key this aggregator tracks.
    pub open spec fn is_move_key(k: KeyCode) -> bool {
        k == KeyCode::W || k == KeyCode::A || k == KeyCode::S || k == KeyCode::D || k
            == KeyCode::Up || k == KeyCode::Down || k == KeyCode::Left || k == KeyCode::Right
    }

    /// Whether the movement key `k` is currently held.
    pub open spec fn is_held(self, k: KeyCode) -> bool {
        match k {
            KeyCode::W => self.held_w,
            KeyCode::A => self.held_a,
            KeyCode::S => self.held_s,
            KeyCode::D => self.held_d,
            KeyCode::Up => self.held_up,
            KeyCode::Down => self.held_down,
            KeyCode::Left => self.held_left,
            KeyCode::Right => self.held_right,
            _ => false,
        }
    }

    /// The aggregator after a key-down of `k`: the key becomes held and its
    /// axis takes its contribution, unless it was already held or is not a
    /// movement key, in which case nothing changes.
    pub open spec fn spec_key_down(self, k: KeyCode) -> InputAggregator {
        if self.is_held(k) {
            self
        } else {
            match k {
                KeyCode::W => InputAggregator {
                    held_w: true,
                    ver_axis: (self.ver_axis - 1) as i8,
                    ..self
                },
                KeyCode::A => InputAggregator {
                    held_a: true,
                    hor_axis: (self.hor_axis - 1) as i8,
                    ..self
                },
                KeyCode::S => InputAggregator {
                    held_s: true,
                    ver_axis: (self.ver_axis + 1) as i8,
                    ..self
                },
                KeyCode::D => InputAggregator {
                    held_d: true,
                    hor_axis: (self.hor_axis + 1) as i8,
                    ..self
                },
                KeyCode::Up => InputAggregator {
                    held_up: true,
                    ver_axis: (self.ver_axis - 1) as i8,
                    ..self
                },
                KeyCode::Down => InputAggregator {
                    held_down: true,
                    ver_axis: (self.ver_axis + 1) as i8,
                    ..self
                },
                KeyCode::Left => InputAggregator {
                    held_left: true,
                    hor_axis: (self.hor_axis - 1) as i8,
                    ..self
                },
                KeyCode::Right => InputAggregator {
                    held_right: true,
                    hor_axis: (self.hor_axis + 1) as i8,
                    ..self
                },
                _ => self,
            }
        }
    }

    /// The aggregator after a key-up of `k`: the key is released and its
    /// contribution taken back, unless it was not held, in which case nothing
    /// changes.
    pub open spec fn spec_key_up(self, k: KeyCode) -> InputAggregator {
        if !self.is_held(k) {
            self
        } else {
            match k {
                KeyCode::W => InputAggregator {
                    held_w: false,
                    ver_axis: (self.ver_axis + 1) as i8,
                    ..self
                },
                KeyCode::A => InputAggregator {
                    held_a: false,
                    hor_axis: (self.hor_axis + 1) as i8,
                    ..self
                },
                KeyCode::S => InputAggregator {
                    held_s: false,
                    ver_axis: (self.ver_axis - 1) as i8,
                    ..self
                },
                KeyCode::D => InputAggregator {
                    held_d: false,
                    hor_axis: (self.hor_axis - 1) as i8,
                    ..self
                },
                KeyCode::Up => InputAggregator {
                    held_up: false,
                    ver_axis: (self.ver_axis + 1) as i8,
                    ..self
                },
                KeyCode::Down => InputAggregator {
                    held_down: false,
                    ver_axis: (self.ver_axis - 1) as i8,
                    ..self
                },
                KeyCode::Left => InputAggregator {
                    held_left: false,
                    hor_axis: (self.hor_axis + 1) as i8,
                    ..self
                },
                KeyCode::Right => InputAggregator {
                    held_right: false,
                    hor_axis: (self.hor_axis - 1) as i8,
                    ..self
                },
                _ => self,
            }
        }
    }

    /// The initial aggregator value: no key held, axes at rest, no button
    /// latched, no modifier set.
    pub open spec fn spec_init() -> InputAggregator {
        InputAggregator {
            held_w: false,
            held_a: false,
            held_s: false,
            held_d: false,
            held_up: false,
            held_down: false,
            held_left: false,
            held_right: false,
            hor_axis: 0,
            ver_axis: 0,
            mouse_left: false,
            mouse_middle: false,
            mouse_right: false,
            mods: Mods { shift: false, ctrl: false, alt: false },
        }
    }

    /// A fresh aggregator: no key held, axes at rest, no button latched.
    pub fn new() -> (a: InputAggregator)
        ensures
            a.wf(),
            a == (InputAggregator {
                held_w: false,
                held_a: false,
                held_s: false,
                held_d: false,
                held_up: false,
                held_down: false,
                held_left: false,
                held_right: false,
                hor_axis: 0,
                ver_axis: 0,
                mouse_left: false,
                mouse_middle: false,
                mouse_right: false,
                mods: Mods { shift: false, ctrl: false, alt: false },
            }),
    {
        InputAggregator {
            held_w: false,
            held_a: false,
            held_s: false,
            held_d: false,
            held_up: false,
            held_down: false,
            held_left: false,
            held_right: false,
            hor_axis: 0,
            ver_axis: 0,
            mouse_left: false,
            mouse_middle: false,
            mouse_right: false,
            mods: Mods { shift: false, ctrl: false, alt: false },
        }
    }

    /// Records a key-down transition. A repeat for an already-held key is
    /// ignored, so the axes cannot drift past the held keys' net intent.
    #[verifier::rlimit(60)]
    pub fn key_down(&mut self, k: KeyCode)
        requires
            old(self).wf(),
        ensures
            final(self).wf(),
            *final(self) == old(self).spec_key_down(k),
            old(self).is_held(k) || !InputAggregator::is_move_key(k) ==> *final(self) == *old(
                self,
            ),
    {
        match k {
            KeyCode::W => if !self.held_w {
                self.held_w = true;
                self.ver_axis = self.ver_axis - 1;
            },
            KeyCode::A => if !self.held_a {
                self.held_a = true;
                self.hor_axis = self.hor_axis - 1;
            },
            KeyCode::S => if !self.held_s {
                self.held_s = true;
                self.ver_axis = self.ver_axis + 1;
            },
            KeyCode::D => if !self.held_d {
                self.held_d = true;
                self.hor_axis = self.hor_axis + 1;
            },
            KeyCode::Up => if !self.held_up {
                self.held_up = true;
                self.ver_axis = self.ver_axis - 1;
            },
            KeyCode::Down => if !self.held_down {
                self.held_down = true;
                self.ver_axis = self.ver_axis + 1;
            },
            KeyCode::Left => if !self.held_left {
                self.held_left = true;
                self.hor_axis = self.hor_axis - 1;
            },
            KeyCode::Right => if !self.held_right {
                self.held_right = true;
                self.hor_axis = self.hor_axis + 1;
            },
            _ => (),
        }
    }

    /// Records a key-up transition. Releasing a key that was never pressed
    /// changes nothing at all: unmatched releases cannot push an axis away
    /// from the net intent of the keys actually held.
    #[verifier::rlimit(60)]
    pub fn key_up(&mut self, k: KeyCode)
        requires
            old(self).wf(),
        ensures
            final(self).wf(),
            *final(self) == old(self).spec_key_up(k),
            !old(self).is_held(k) ==> *final(self) == *old(self),
    {
        match k {
            KeyCode::W => if self.held_w {
                self.held_w = false;
                self.ver_axis = self.ver_axis + 1;
            },
            KeyCode::A => if self.held_a {
                self.held_a = false;
                self.hor_axis = self.hor_axis + 1;
            },
            KeyCode::S => if self.held_s {
                self.held_s = false;
                self.ver_axis = self.ver_axis - 1;
            },
            KeyCode::D => if self.held_d {
                self.held_d = false;
                self.hor_axis = self.hor_axis - 1;
            },
            KeyCode::Up => if self.held_up {
                self.held_up = false;
                self.ver_axis = self.ver_axis + 1;
            },
            KeyCode::Down => if self.held_down {
                self.held_down = false;
                self.ver_axis = self.ver_axis - 1;
            },
            KeyCode::Left => if self.held_left {
                self.held_left = false;
                self.hor_axis = self.hor_axis + 1;
            },
            KeyCode::Right => if self.held_right {
                self.held_right = false;
                self.hor_axis = self.hor_axis - 1;
            },
            _ => (),
        }
    }

    /// Latches a mouse button as pressed.
    pub fn mouse_down(&mut self, b: MouseButton)
        ensures
            *final(self) == (match b {
                MouseButton::Left => InputAggregator { mouse_left: true, ..*old(self) },
                MouseButton::Middle => InputAggregator { mouse_middle: true, ..*old(self) },
                MouseButton::Right => InputAggregator { mouse_right: true, ..*old(self) },
                MouseButton::Other => *old(self),
            }),
    {
        match b {
            MouseButton::Left => self.mouse_left = true,
            MouseButton::Middle => self.mouse_middle = true,
            MouseButton::Right => self.mouse_right = true,
            MouseButton::Other => (),
        }
    }

    /// Releases a mouse button latch.
    pub fn mouse_up(&mut self, b: MouseButton)
        ensures
            *final(self) == (match b {
                MouseButton::Left => InputAggregator { mouse_left: false, ..*old(self) },
                MouseButton::Middle => InputAggregator { mouse_middle: false, ..*old(self) },
                MouseButton::Right => InputAggregator { mouse_right: false, ..*old(self) },
                MouseButton::Other => *old(self),
            }),
    {
        match b {
            MouseButton::Left => self.mouse_left = false,
            MouseButton::Middle => self.mouse_middle = false,
            MouseButton::Right => self.mouse_right = false,
            MouseButton::Other => (),
        }
    }

    /// Takes over the modifier flags delivered with the latest key event.
    pub fn set_mods(&mut self, mods: Mods)
        ensures
            *final(self) == (InputAggregator { mods, ..*old(self) }),
    {
        self.mods = mods;
    }

    /// The horizontal intent axis: rightward positive.
    pub fn hor(&self) -> (r: i8)
        requires
            self.wf(),
        ensures
            r == self.spec_hor(),
    {
        self.hor_axis
    }

    /// The vertical intent axis: downward positive.
    pub fn ver(&self) -> (r: i8)
        requires
            self.wf(),
        ensures
            r == self.spec_ver(),
    {
        self.ver_axis
    }
}

/// Releasing a key that is not held leaves the aggregator exactly as it was,
/// and the axes of a well-formed aggregator always equal the net intent of
/// the held keys and so stay within two of zero in either direction: no
/// sequence of unmatched release events can make an axis drift.
pub proof fn lemma_release_unheld_no_drift(a: InputAggregator, k: KeyCode)
    requires
        a.wf(),
        !a.is_held(k),
    ensures
        a.spec_key_up(k) == a,
        -2 <= a.spec_hor() <= 2,
        -2 <= a.spec_ver() <= 2,
{
}

} // verus!
