//! Shared overlay state. Several execution contexts read and update it; the
//! render step works from a snapshot taken in one short critical section, so
//! no lock is held across GPU work.

use vstd::prelude::*;
use crate::geom::UvRect;

verus! {

/// The overlay state a host command can toggle.
#[derive(Clone, Copy, PartialEq, Eq, Structural, Debug)]
pub struct UiState {
    /// Draw the video quad mirrored horizontally.
    pub mirror: bool,
    /// Normalized source rectangle for the video quad.
    pub crop: UvRect,
    /// Show the crop indicator.
    pub show_crop: bool,
    /// Convert the presented image to weighted luminance.
    pub use_gray: bool,
    /// Keep the host window above others.
    pub is_topmost: bool,
}

/// What one frame's composition reads: a consistent copy of the toggles that
/// matter to the overlay pass.
#[derive(Clone, Copy, PartialEq, Eq, Structural, Debug)]
pub struct UiSnapshot {
    pub mirror: bool,
    pub crop: UvRect,
    pub use_gray: bool,
}

impl Default for UiState {
    /// Fresh sessions start unmirrored, uncropped, in color, kept on top.
    fn default() -> (r: UiState)
        ensures
            r == UiState::spec_default(),
    {
        UiState {
            mirror: false,
            crop: UvRect::full_frame(),
            show_crop: false,
            use_gray: false,
            is_topmost: true,
        }
    }
}

impl UiState {
    pub open spec fn spec_default() -> UiState {
        UiState {
            mirror: false,
            crop: UvRect::spec_full_frame(),
            show_crop: false,
            use_gray: false,
            is_topmost: true,
        }
    }

    pub open spec fn spec_snapshot(self) -> UiSnapshot {
        UiSnapshot { mirror: self.mirror, crop: self.crop, use_gray: self.use_gray }
    }

    /// The consistent copy the render step takes before any GPU work.
    pub fn snapshot(&self) -> (r: UiSnapshot)
        ensures
            r == self.spec_snapshot(),
    {
        UiSnapshot { mirror: self.mirror, crop: self.crop, use_gray: self.use_gray }
    }
}

} // verus!
