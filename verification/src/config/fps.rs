//! The frame-counter overlay settings.

use vstd::prelude::*;

use crate::config::position::{spec_is_corner, Position};
use crate::config::text::Text;

verus! {

#[derive(Debug, Clone, Copy, PartialEq, Eq)]
pub struct FpsConfig {
    pub enable: bool,
    pub frame_limit: u8,
    pub config: Text,
}

impl FpsConfig {
    /// The frame-counter overlay may only sit in one of the four corners.
    pub fn is_valid_position(&self) -> (r: bool)
        ensures
            r == spec_is_corner(self.config.position),
    {
        match self.config.position {
            Position::TopLeft | Position::TopRight | Position::BottomLeft
            | Position::BottomRight => true,
            _ => false,
        }
    }
}

} // verus!
