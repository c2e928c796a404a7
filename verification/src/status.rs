//! The console's two-state machine. While open it remembers the cursor
//! affordance the platform had at open time and restores it exactly on close,
//! and it forces the live cursor while the mouse roams between the console
//! panel and the game world underneath.

use vstd::prelude::*;
use crate::console::PROMPT_Y;

verus! {

/// A cursor icon the platform can show.
#[derive(Debug, Copy, Clone, PartialEq, Eq, Structural)]
pub enum CursorIcon {
    Default,
    Crosshair,
    Hand,
    Text,
    Grab,
}

/// The platform's live cursor affordance: which icon it shows and whether it
/// is hidden. The loop driver mirrors this onto the real window.
#[derive(Debug, Copy, Clone, PartialEq, Eq, Structural)]
pub struct PlatformCursor {
    pub icon: CursorIcon,
    pub hidden: bool,
}

/// Closed, or open while holding the cursor affordance captured at open time.
#[derive(Debug, Copy, Clone, PartialEq, Eq, Structural)]
pub enum ConsoleStatus {
    Open { cursor: CursorIcon, cursor_hidden: bool },
    Closed,
}

impl ConsoleStatus {
    /// The status after an open request given the live platform cursor:
    /// opening captures the cursor once; an open console stays as it is.
    pub open spec fn spec_open(self, platform: PlatformCursor) -> ConsoleStatus {
        match self {
            ConsoleStatus::Closed => ConsoleStatus::Open {
                cursor: platform.icon,
                cursor_hidden: platform.hidden,
            },
            ConsoleStatus::Open { .. } => self,
        }
    }

    /// The platform cursor after a close request: closing restores exactly
    /// the captured affordance; a closed console leaves the cursor alone.
    pub open spec fn spec_close_cursor(self, platform: PlatformCursor) -> PlatformCursor {
        match self {
            ConsoleStatus::Open { cursor, cursor_hidden } => PlatformCursor {
                icon: cursor,
                hidden: cursor_hidden,
            },
            ConsoleStatus::Closed => platform,
        }
    }

    pub fn is_open(self) -> (r: bool)
        ensures
            r == (self matches ConsoleStatus::Open { .. }),
    {
        if let ConsoleStatus::Open { .. } = self {
            true
        } else {
            false
        }
    }

    /// Opens the console, capturing the platform's current cursor icon and
    /// hidden flag. Opening when already open changes nothing.
    pub fn open(&mut self, platform: &PlatformCursor)
        ensures
            *final(self) == old(self).spec_open(*platform),
            old(self) matches ConsoleStatus::Open { .. } ==> *final(self) == *old(self),
    {
        if let ConsoleStatus::Closed = self {
            *self = ConsoleStatus::Open { cursor: platform.icon, cursor_hidden: platform.hidden };
        }
    }

    /// Closes the console, restoring the captured cursor affordance to the
    /// platform. Closing when already closed changes nothing.
    pub fn close(&mut self, platform: &mut PlatformCursor)
        ensures
            *final(self) == ConsoleStatus::Closed || *old(self) == ConsoleStatus::Closed,
            *final(platform) == old(self).spec_close_cursor(*old(platform)),
            old(self) matches ConsoleStatus::Open { .. } ==> *final(self) == ConsoleStatus::Closed,
            *old(self) == ConsoleStatus::Closed ==> *final(self) == *old(self) && *final(platform)
                == *old(platform),
    {
        if let ConsoleStatus::Open { cursor, cursor_hidden } = *self {
            platform.icon = cursor;
            platform.hidden = cursor_hidden;
            *self = ConsoleStatus::Closed;
        }
    }

    /// Adjusts the live cursor while the console is open: over the game world
    /// (below the prompt line) the captured affordance shows through; over
    /// the console panel a default visible arrow shows instead. The stored
    /// capture is untouched. A closed console adjusts nothing.
    pub fn adjust_cursor(&self, platform: &mut PlatformCursor, y: i64)
        ensures
            *final(platform) == (match *self {
                ConsoleStatus::Open { cursor, cursor_hidden } => if y > PROMPT_Y as i64 {
                    PlatformCursor { icon: cursor, hidden: cursor_hidden }
                } else {
                    PlatformCursor { icon: CursorIcon::Default, hidden: false }
                },
                ConsoleStatus::Closed => *old(platform),
            }),
    {
        if let ConsoleStatus::Open { cursor, cursor_hidden } = *self {
            if y > PROMPT_Y as i64 {
                platform.icon = cursor;
                platform.hidden = cursor_hidden;
            } else {
                platform.icon = CursorIcon::Default;
                platform.hidden = false;
            }
        }
    }
}

/// Open-then-close restores the platform cursor exactly. Whatever the active
/// screen set the cursor to while the console was open (`meddled`), closing
/// the console brings back precisely the icon and hidden flag the platform
/// had immediately before it was opened.
pub proof fn lemma_cursor_round_trip(before: PlatformCursor, meddled: PlatformCursor)
    ensures
        ConsoleStatus::Closed.spec_open(before).spec_close_cursor(meddled) == before,
{
}

} // verus!
