//! A small always-on-screen overlay clock/timer library: the time-keeping
//! state machine, text anchor positioning, surface lifecycle bookkeeping and
//! the validation rules the GPU-facing renderer layers are driven by.

pub mod base;
pub mod config;
pub mod error;
pub mod label;
pub mod notify;
pub mod renderer;
pub mod time;
pub mod utils;

pub use crate::base::imgui_state::ImguiMode;
pub use crate::base::{PixelSize, State, SurfaceConfig};
pub use crate::config::fps::FpsConfig;
pub use crate::config::position::Position;
pub use crate::config::text::Text;
pub use crate::config::time::TimeConfig;
pub use crate::config::NeedleConfig;
pub use crate::error::{NeedleErr, NeedleError, SurfaceError};
pub use crate::label::NeedleLabel;
pub use crate::notify::DialogBackend;
pub use crate::time::{OpMode, Time, TimeFormat, WallClock};
pub use crate::utils::fonts::{Font, FontType, FontTypes, Fonts};

use vstd::prelude::*;

verus! {

/// Returns the library name and version.
pub fn version_info() -> (r: String)
    ensures
        r@ == "needle 1.0.0"@,
{
    String::from_str("needle 1.0.0")
}

} // verus!
