use needle::{NeedleError, PixelSize, State, SurfaceError};

#[test]
fn test_resize_is_idempotent() {
    let mut state = State::new(PixelSize::new(800, 600));
    state.resize(&PixelSize::new(1024, 768));
    let once = state.surface_config();
    state.resize(&PixelSize::new(1024, 768));

    assert_eq!(once, state.surface_config());
    assert_eq!(PixelSize::new(1024, 768), state.size());
    assert_eq!(1024, state.surface_config().width);
    assert_eq!(768, state.surface_config().height);
}

#[test]
fn test_resize_zero_width_is_ignored() {
    let mut state = State::new(PixelSize::new(800, 600));
    let before = state.surface_config();
    state.resize(&PixelSize::new(0, 500));

    assert_eq!(before, state.surface_config());
    assert_eq!(PixelSize::new(800, 600), state.size());
}

#[test]
fn test_resize_zero_height_is_ignored() {
    let mut state = State::new(PixelSize::new(800, 600));
    let before = state.surface_config();
    state.resize(&PixelSize::new(500, 0));

    assert_eq!(before, state.surface_config());
    assert_eq!(PixelSize::new(800, 600), state.size());
}

#[test]
fn test_surface_error_mapping() {
    assert_eq!(
        NeedleError::Timeout,
        NeedleError::from_surface_error(SurfaceError::Timeout)
    );
    assert_eq!(
        NeedleError::Outdated,
        NeedleError::from_surface_error(SurfaceError::Outdated)
    );
    assert_eq!(
        NeedleError::Lost,
        NeedleError::from_surface_error(SurfaceError::Lost)
    );
    assert_eq!(
        NeedleError::OutOfMemory,
        NeedleError::from_surface_error(SurfaceError::OutOfMemory)
    );
    assert_eq!(
        NeedleError::Other,
        NeedleError::from_surface_error(SurfaceError::Other)
    );
}

#[test]
fn test_fatal_errors() {
    assert!(NeedleError::FailedToFindValidAdapter.is_fatal());
    assert!(NeedleError::FailedToRequestDevice.is_fatal());
    assert!(NeedleError::FailedToCreateSurface.is_fatal());
    assert!(NeedleError::OutOfMemory.is_fatal());
    assert!(!NeedleError::Outdated.is_fatal());
    assert!(!NeedleError::Timeout.is_fatal());
}

#[test]
fn test_recoverable_errors() {
    assert!(NeedleError::Lost.is_recoverable());
    assert!(NeedleError::Outdated.is_recoverable());
    assert!(NeedleError::Timeout.is_recoverable());
    assert!(NeedleError::RemovedFromAtlas.is_recoverable());
    assert!(NeedleError::ScreenResolutionChanged.is_recoverable());
    assert!(!NeedleError::OutOfMemory.is_recoverable());
    assert!(!NeedleError::InvalidBufferRegistration.is_recoverable());
}
