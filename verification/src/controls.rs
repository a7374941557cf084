//! The decisions behind mouse input: the distilled per-frame control
//! state, and double-click detection over timestamps that the input layer
//! supplies.

use vstd::prelude::*;
use crate::fixed::{Fx, fx_sub_s};
use crate::vec2::Vec2;

verus! {

/// What the mouse did this frame, in world coordinates.
pub struct ControlState {
    pub left_mouse_down: bool,
    pub left_mouse_up: bool,
    pub left_mouse_just_down: bool,
    pub double_click: bool,
    pub mouse_world_pos: Vec2,
}

impl Default for ControlState {
    /// Nothing pressed, the cursor at the origin.
    fn default() -> (r: ControlState)
        ensures
            !r.left_mouse_down,
            !r.left_mouse_up,
            !r.left_mouse_just_down,
            !r.double_click,
            r.mouse_world_pos@ == (0int, 0int),
    {
        ControlState {
            left_mouse_down: false,
            left_mouse_up: false,
            left_mouse_just_down: false,
            double_click: false,
            mouse_world_pos: Vec2::zero(),
        }
    }
}

/// Input bindings: how close together two clicks must come, in seconds.
pub struct Bindings {
    pub double_click_window: Fx,
}

impl Default for Bindings {
    /// A fifth of a second.
    fn default() -> (r: Bindings)
        ensures
            r.double_click_window@ == 200_000,
    {
        Bindings { double_click_window: Fx::from_raw(200_000) }
    }
}

/// The double-click detector: remembers when the last click happened.
pub struct DoubleClick {
    pub timer: Option<Fx>,
}

impl Default for DoubleClick {
    /// No click seen yet.
    fn default() -> (r: DoubleClick)
        ensures
            r.timer == Option::<Fx>::None,
    {
        DoubleClick { timer: None }
    }
}

impl DoubleClick {
    /// Record a click at time `now` and say whether it lands within the
    /// window after the previous one.  The very first click never counts
    /// as a double click.
    pub fn is_double_click(&mut self, now: Fx, click_window: Fx) -> (r: bool)
        ensures
            final(self).timer == Some(now),
            r == match old(self).timer {
                Some(t) => fx_sub_s(now@, t@) <= click_window@,
                None => false,
            },
    {
        match self.timer {
            Some(t) => {
                let elapsed = now.sub(t);
                self.timer = Some(now);
                elapsed.raw <= click_window.raw
            },
            None => {
                self.timer = Some(now);
                false
            },
        }
    }
}

} // verus!
