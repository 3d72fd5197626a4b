//! The error taxonomy: every failure the library reports, the mapping from
//! surface-acquisition failures, and the fatal/transient classification that
//! drives the per-frame retry policy.

use vstd::prelude::*;

use crate::config::position::Position;

verus! {

/// Why acquiring the next presentable image failed.
#[derive(Debug, PartialEq, Eq, Clone, Copy, Structural)]
pub enum SurfaceError {
    Timeout,
    Outdated,
    Lost,
    OutOfMemory,
    Other,
}

#[derive(Debug, Clone, PartialEq)]
pub enum NeedleError {
    // Device/surface startup
    FailedToCreateSurface,
    FailedToFindValidAdapter,
    FailedToRequestDevice,
    // Configuration
    InvalidPath,
    ConfigExists,
    ConfigNonExistant(String),
    InvalidFpsTextPosition(Position),
    TextPositionOverlapping,
    FailedToOpenConfig,
    FailedToReadConfig,
    FailedToParseConfig,
    FailedToWriteConfig,
    FailedToCreateDirectory,
    // Surface acquisition
    Lost,
    Outdated,
    OutOfMemory,
    Timeout,
    // Renderer
    RemovedFromAtlas,
    ScreenResolutionChanged,
    InvalidBufferRegistration,
    RendererUpdateFailure,
    FailedToReadShader,
    // Download helpers
    InvalidURLFormat,
    CallbackError,
    ShaderDownloadFailure,
    WriteError,
    // Clock
    TimerStartFailure,
    // Filesystem
    FailedToReadFile,
    FailedToReadDir,
    FailedToSearchDir,
    // Other
    InitializationError,
    InvalidRegex,
    Other,
}

pub type NeedleErr<T> = Result<T, NeedleError>;

impl NeedleError {
    /// The error a failed frame acquisition surfaces as.
    pub fn from_surface_error(err: SurfaceError) -> (r: NeedleError)
        ensures
            err == SurfaceError::Timeout ==> r == NeedleError::Timeout,
            err == SurfaceError::Outdated ==> r == NeedleError::Outdated,
            err == SurfaceError::Lost ==> r == NeedleError::Lost,
            err == SurfaceError::OutOfMemory ==> r == NeedleError::OutOfMemory,
            err == SurfaceError::Other ==> r == NeedleError::Other,
    {
        match err {
            SurfaceError::Timeout => NeedleError::Timeout,
            SurfaceError::Outdated => NeedleError::Outdated,
            SurfaceError::Lost => NeedleError::Lost,
            SurfaceError::OutOfMemory => NeedleError::OutOfMemory,
            SurfaceError::Other => NeedleError::Other,
        }
    }

    /// An unrecoverable startup or presentation failure: the process stops
    /// with a diagnostic rather than retrying.
    pub fn is_fatal(&self) -> (r: bool)
        ensures
            r == (self matches NeedleError::FailedToFindValidAdapter
                || self matches NeedleError::FailedToRequestDevice
                || self matches NeedleError::FailedToCreateSurface
                || self matches NeedleError::OutOfMemory),
    {
        match self {
            NeedleError::FailedToFindValidAdapter
            | NeedleError::FailedToRequestDevice
            | NeedleError::FailedToCreateSurface
            | NeedleError::OutOfMemory => true,
            _ => false,
        }
    }

    /// A transient failure: the current frame is dropped, state is left
    /// unchanged, and the next scheduled tick retries from scratch.
    pub fn is_recoverable(&self) -> (r: bool)
        ensures
            r == (self matches NeedleError::Lost || self matches NeedleError::Outdated
                || self matches NeedleError::Timeout
                || self matches NeedleError::RemovedFromAtlas
                || self matches NeedleError::ScreenResolutionChanged),
    {
        match self {
            NeedleError::Lost
            | NeedleError::Outdated
            | NeedleError::Timeout
            | NeedleError::RemovedFromAtlas
            | NeedleError::ScreenResolutionChanged => true,
            _ => false,
        }
    }
}

} // verus!
