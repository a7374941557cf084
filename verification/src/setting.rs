//! The configuration values the core consumes at construction time.
//! Everything else in the settings file (window size, textures, icon
//! sizes, the time scale) belongs to the outside collaborators.

use vstd::prelude::*;

verus! {

/// Grid configuration: the logical cell counts and the resolution
/// multiplier that expands them into sample counts.
#[derive(Clone, Copy, Debug)]
pub struct Field {
    pub size: [usize; 2],
    pub resolution: usize,
}

impl Field {
    /// Whether the configuration is usable: positive sizes and resolution,
    /// with sample counts small enough for the grid layout's fixed-point
    /// coordinates.
    pub fn valid(&self) -> (r: bool)
        ensures
            r == (1 <= self.size@[0] * self.resolution <= 1_000_000
                && 1 <= self.size@[1] * self.resolution <= 1_000_000),
    {
        let w = self.size[0].checked_mul(self.resolution);
        let h = self.size[1].checked_mul(self.resolution);
        match (w, h) {
            (Some(w), Some(h)) => 1 <= w && w <= 1_000_000 && 1 <= h && h <= 1_000_000,
            _ => false,
        }
    }
}

} // verus!
