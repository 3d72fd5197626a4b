//! The clock overlay settings.

use vstd::prelude::*;

use crate::config::text::Text;
use crate::time::TimeFormat;

verus! {

#[derive(Debug, Clone, PartialEq)]
pub struct TimeConfig {
    pub format: TimeFormat,
    pub font: Option<String>,
    pub config: Text,
}

} // verus!
