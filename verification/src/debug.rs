//! Flags controlling the debug visualizations of the surrounding game.
//!
//! The simulation itself never reads these; they are plain data that the
//! game's render layer consults.  Callers own a `DebugFlags` value and
//! pass it where it is needed.

use vstd::prelude::*;

verus! {

/// Which debug visualizations are switched on.
#[derive(Clone, Copy, Debug, PartialEq, Eq, Structural)]
pub struct DebugFlags {
    pub debug_text: bool,
    pub collision: bool,
    pub show_debug_panel: bool,
}

impl DebugFlags {
    /// All visualizations start switched off.
    pub fn new() -> (r: DebugFlags)
        ensures
            r == (DebugFlags { debug_text: false, collision: false, show_debug_panel: false }),
    {
        DebugFlags { debug_text: false, collision: false, show_debug_panel: false }
    }

    pub fn set_debug_text(&mut self, enabled: bool)
        ensures
            *final(self) == (DebugFlags { debug_text: enabled, ..*old(self) }),
    {
        self.debug_text = enabled;
    }

    pub fn set_collision(&mut self, enabled: bool)
        ensures
            *final(self) == (DebugFlags { collision: enabled, ..*old(self) }),
    {
        self.collision = enabled;
    }

    pub fn set_show_debug_panel(&mut self, enabled: bool)
        ensures
            *final(self) == (DebugFlags { show_debug_panel: enabled, ..*old(self) }),
    {
        self.show_debug_panel = enabled;
    }

    pub fn is_debug_text_enabled(&self) -> (r: bool)
        ensures
            r == self.debug_text,
    {
        self.debug_text
    }

    pub fn is_collision_enabled(&self) -> (r: bool)
        ensures
            r == self.collision,
    {
        self.collision
    }

    pub fn is_debug_panel_visible(&self) -> (r: bool)
        ensures
            r == self.show_debug_panel,
    {
        self.show_debug_panel
    }
}

/// Set the debug-text flag.
pub fn set_debug_text(flags: &mut DebugFlags, enabled: bool)
    ensures
        *final(flags) == (DebugFlags { debug_text: enabled, ..*old(flags) }),
{
    flags.set_debug_text(enabled);
}

/// Set the collision-debug flag.
pub fn set_collision_debug(flags: &mut DebugFlags, enabled: bool)
    ensures
        *final(flags) == (DebugFlags { collision: enabled, ..*old(flags) }),
{
    flags.set_collision(enabled);
}

/// Set the debug-panel visibility.
pub fn set_debug_panel_visible(flags: &mut DebugFlags, enabled: bool)
    ensures
        *final(flags) == (DebugFlags { show_debug_panel: enabled, ..*old(flags) }),
{
    flags.set_show_debug_panel(enabled);
}

} // verus!
