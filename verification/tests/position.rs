use needle::{FpsConfig, NeedleConfig, NeedleError, PixelSize, Position, Text, TimeConfig, TimeFormat};

fn text_at(position: Position) -> Text {
    Text {
        color: [255, 255, 255, 255],
        position,
    }
}

#[test]
fn test_bottom_right_anchor_position() {
    let text = text_at(Position::BottomRight);
    let (x, y) = text.position(&PixelSize::new(1920, 1080), &[100, 20], 10);

    assert_eq!((1810, 1040), (x, y));
}

#[test]
fn test_each_anchor_formula() {
    let screen = PixelSize::new(1920, 1080);
    let size = [100, 20];
    let at = |p: Position| text_at(p).position(&screen, &size, 10);

    assert_eq!((910, 530), at(Position::Center));
    assert_eq!((910, 20), at(Position::Top));
    assert_eq!((910, 1040), at(Position::Bottom));
    assert_eq!((10, 530), at(Position::Left));
    assert_eq!((1810, 530), at(Position::Right));
    assert_eq!((10, 20), at(Position::TopLeft));
    assert_eq!((1810, 20), at(Position::TopRight));
    assert_eq!((10, 1040), at(Position::BottomLeft));
    assert_eq!((1810, 1040), at(Position::BottomRight));
}

#[test]
fn test_anchors_are_pairwise_distinct() {
    let screen = PixelSize::new(1920, 1080);
    let anchors = [
        Position::Center,
        Position::Top,
        Position::Bottom,
        Position::Left,
        Position::Right,
        Position::TopLeft,
        Position::TopRight,
        Position::BottomLeft,
        Position::BottomRight,
    ];
    let points: Vec<(i64, i64)> = anchors
        .iter()
        .map(|p| text_at(*p).position(&screen, &[100, 20], 10))
        .collect();

    for i in 0..points.len() {
        for j in 0..points.len() {
            if i != j {
                assert_ne!(points[i], points[j]);
            }
        }
    }
}

#[test]
fn test_anchor_is_deterministic() {
    let screen = PixelSize::new(640, 480);
    let first = text_at(Position::TopRight).position(&screen, &[30, 10], 5);
    let second = text_at(Position::TopRight).position(&screen, &[30, 10], 5);

    assert_eq!(first, second);
}

#[test]
fn test_anchor_with_text_wider_than_screen() {
    let text = text_at(Position::Center);
    let (x, y) = text.position(&PixelSize::new(100, 100), &[150, 20], 0);

    assert_eq!((-25, 40), (x, y));
}

#[test]
fn test_is_corner() {
    assert!(Position::TopLeft.is_corner());
    assert!(Position::TopRight.is_corner());
    assert!(Position::BottomLeft.is_corner());
    assert!(Position::BottomRight.is_corner());
    assert!(!Position::Center.is_corner());
    assert!(!Position::Top.is_corner());
    assert!(!Position::Left.is_corner());
}

fn config_with(fps_enabled: bool, fps_pos: Position, time_pos: Position) -> NeedleConfig {
    NeedleConfig {
        time: TimeConfig {
            format: TimeFormat::HourMinSec,
            font: None,
            config: text_at(time_pos),
        },
        fps: FpsConfig {
            enable: fps_enabled,
            frame_limit: 30,
            config: text_at(fps_pos),
        },
    }
}

#[test]
fn test_validate_accepts_corner_fps() {
    let config = config_with(true, Position::TopRight, Position::Center);

    assert!(config.validate().is_ok());
}

#[test]
fn test_validate_rejects_non_corner_fps() {
    let config = config_with(true, Position::Top, Position::Center);

    assert_eq!(
        Err(NeedleError::InvalidFpsTextPosition(Position::Top)),
        config.validate()
    );
}

#[test]
fn test_validate_rejects_overlapping_anchors() {
    let config = config_with(true, Position::TopRight, Position::TopRight);

    assert_eq!(Err(NeedleError::TextPositionOverlapping), config.validate());
}

#[test]
fn test_validate_ignores_disabled_fps() {
    let config = config_with(false, Position::Top, Position::Top);

    assert!(config.validate().is_ok());
}

#[test]
fn test_fps_is_valid_position() {
    assert!(config_with(true, Position::BottomLeft, Position::Center)
        .fps
        .is_valid_position());
    assert!(!config_with(true, Position::Bottom, Position::Center)
        .fps
        .is_valid_position());
}

#[test]
fn test_default_config() {
    let config = NeedleConfig::default();

    assert_eq!(TimeFormat::HourMinSec, config.time.format);
    assert_eq!(None, config.time.font);
    assert_eq!(Position::Center, config.time.config.position);
    assert_eq!([255, 255, 255, 255], config.time.config.color);
    assert!(!config.fps.enable);
    assert_eq!(30, config.fps.frame_limit);
    assert_eq!(Position::TopRight, config.fps.config.position);
    assert_eq!([255, 0, 0, 255], config.fps.config.color);
    assert!(config.validate().is_ok());
}

fn strings(parts: &[&str]) -> Vec<String> {
    parts.iter().map(|s| s.to_string()).collect()
}

#[test]
fn test_resolve_path_pushes_components() {
    let resolved =
        NeedleConfig::resolve_path(strings(&["home", "user"]), &strings(&["fonts"])).unwrap();

    assert_eq!(strings(&["home", "user", "fonts"]), resolved);
}

#[test]
fn test_resolve_path_skips_blank_segments() {
    let resolved = NeedleConfig::resolve_path(
        strings(&["base"]),
        &strings(&["", ".", " ", "\t", "fonts"]),
    )
    .unwrap();

    assert_eq!(strings(&["base", "fonts"]), resolved);
}

#[test]
fn test_resolve_path_parent_pops() {
    let resolved =
        NeedleConfig::resolve_path(strings(&["a", "b"]), &strings(&["..", "c"])).unwrap();

    assert_eq!(strings(&["a", "c"]), resolved);
}

#[test]
fn test_resolve_path_above_root_is_invalid() {
    let resolved = NeedleConfig::resolve_path(strings(&["a"]), &strings(&["..", ".."]));

    assert_eq!(Err(NeedleError::InvalidPath), resolved);
}
