//! The nine named screen anchors a text overlay can be placed at.

use vstd::prelude::*;

verus! {

#[derive(Debug, Clone, Copy, PartialEq, Eq, Structural)]
pub enum Position {
    Center,
    Top,
    Bottom,
    Right,
    Left,
    TopRight,
    TopLeft,
    BottomRight,
    BottomLeft,
}

/// Whether an anchor is one of the four screen corners.
pub open spec fn spec_is_corner(p: Position) -> bool {
    p == Position::TopLeft || p == Position::TopRight || p == Position::BottomLeft || p
        == Position::BottomRight
}

impl Position {
    /// Whether this anchor is one of the four screen corners.
    pub fn is_corner(&self) -> (r: bool)
        ensures
            r == spec_is_corner(*self),
    {
        match self {
            Position::TopLeft | Position::TopRight | Position::BottomLeft
            | Position::BottomRight => true,
            _ => false,
        }
    }

    /// The anchor's name, as it appears in a configuration file.
    pub fn as_str(&self) -> (r: &'static str)
        ensures
            self matches Position::Center ==> r@ == "Center"@,
            self matches Position::Top ==> r@ == "Top"@,
            self matches Position::Bottom ==> r@ == "Bottom"@,
            self matches Position::Right ==> r@ == "Right"@,
            self matches Position::Left ==> r@ == "Left"@,
            self matches Position::TopRight ==> r@ == "TopRight"@,
            self matches Position::TopLeft ==> r@ == "TopLeft"@,
            self matches Position::BottomRight ==> r@ == "BottomRight"@,
            self matches Position::BottomLeft ==> r@ == "BottomLeft"@,
    {
        match self {
            Position::Center => "Center",
            Position::Top => "Top",
            Position::Bottom => "Bottom",
            Position::Right => "Right",
            Position::Left => "Left",
            Position::TopRight => "TopRight",
            Position::TopLeft => "TopLeft",
            Position::BottomRight => "BottomRight",
            Position::BottomLeft => "BottomLeft",
        }
    }
}

} // verus!
