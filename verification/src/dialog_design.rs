//! The spacing that the dialogs use, in whole pixels.
use vstd::prelude::*;

verus! {

/// The gaps and paddings of the older dialogs.
pub struct DialogSpacing;

impl DialogSpacing {
    pub const TINY: u16 = 4;
    pub const SMALL: u16 = 8;
    pub const MEDIUM: u16 = 12;
    pub const LARGE: u16 = 16;
}

/// The gaps, paddings and shapes of the dialogs.
pub struct DialogDesign;

impl DialogDesign {
    pub const SPACE_TINY: u16 = 4;
    pub const SPACE_SMALL: u16 = 8;
    pub const SPACE_MEDIUM: u16 = 12;
    pub const SPACE_LARGE: u16 = 16;
    pub const PAD_SMALL: u16 = 8;
    pub const PAD_MEDIUM: u16 = 12;
    pub const PAD_LARGE: u16 = 16;
    /// The height of a progress bar.
    pub const PROGRESS_HEIGHT: u16 = 6;
    /// The corner radius of a container.
    pub const RADIUS: u16 = 8;
}

} // verus!
