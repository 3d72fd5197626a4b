//! Which group of settings the in-overlay settings panel is editing.

use vstd::prelude::*;

verus! {

#[derive(Debug, Clone, Copy, PartialEq, Eq, Structural)]
pub enum ImguiMode {
    Background,
    ClockTimer,
    Fps,
    Invalid,
}

impl ImguiMode {
    /// The mode's display name.
    pub fn as_str(&self) -> (r: &'static str)
        ensures
            self matches ImguiMode::Background ==> r@ == "Background"@,
            self matches ImguiMode::ClockTimer ==> r@ == "Clock/Timer"@,
            self matches ImguiMode::Fps ==> r@ == "FPS"@,
            self matches ImguiMode::Invalid ==> r@ == "Invalid"@,
    {
        match self {
            ImguiMode::Background => "Background",
            ImguiMode::ClockTimer => "Clock/Timer",
            ImguiMode::Fps => "FPS",
            ImguiMode::Invalid => "Invalid",
        }
    }
}

} // verus!
