use needle::renderer::{
    indexed_rectangle_indices, validate_buffer_registration, validate_buffer_swap,
};
use needle::utils::crop;
use needle::{DialogBackend, ImguiMode, NeedleError, NeedleLabel, Position};

#[test]
fn test_buffer_registration_rejects_count_mismatch() {
    assert_eq!(
        Err(NeedleError::InvalidBufferRegistration),
        validate_buffer_registration(2, 1, false, false)
    );
}

#[test]
fn test_buffer_registration_rejects_index_presence_mismatch() {
    assert_eq!(
        Err(NeedleError::InvalidBufferRegistration),
        validate_buffer_registration(1, 1, true, false)
    );
    assert_eq!(
        Err(NeedleError::InvalidBufferRegistration),
        validate_buffer_registration(1, 1, false, true)
    );
}

#[test]
fn test_buffer_registration_accepts_matching_descriptor() {
    assert!(validate_buffer_registration(1, 1, true, true).is_ok());
    assert!(validate_buffer_registration(3, 3, false, false).is_ok());
}

#[test]
fn test_buffer_swap_requires_equal_counts() {
    assert!(validate_buffer_swap(2, 2).is_ok());
    assert_eq!(
        Err(NeedleError::InvalidBufferRegistration),
        validate_buffer_swap(1, 2)
    );
}

#[test]
fn test_indexed_rectangle_indices() {
    let indices = indexed_rectangle_indices();

    assert_eq!(vec![0u16, 1, 3, 1, 2, 3], indices);
    assert!(indices.iter().all(|i| *i < 4));
}

#[test]
fn test_crop_clamps_to_max() {
    assert_eq!(3, crop(3, 10));
    assert_eq!(10, crop(12, 10));
    assert_eq!(10, crop(10, 10));
    assert_eq!(-5, crop(-5, 0));
}

#[test]
fn test_label_without_prefix() {
    assert_eq!("Vertex Buffer", NeedleLabel::VertexBuffer("").text().as_str());
    assert_eq!("Render Pipeline", NeedleLabel::Pipeline("").text().as_str());
    assert_eq!("Command Encoder", NeedleLabel::CommandEncoder("").text().as_str());
    assert_eq!("Device", NeedleLabel::Device("").text().as_str());
}

#[test]
fn test_label_with_prefix() {
    assert_eq!(
        "Background Vertex Buffer",
        NeedleLabel::VertexBuffer("Background").text().as_str()
    );
    assert_eq!("Needle Pipeline", NeedleLabel::Pipeline("Needle").text().as_str());
    assert_eq!("Main Render Pass", NeedleLabel::RenderPass("Main").text().as_str());
    assert_eq!("Vertex Shader", NeedleLabel::Shader("Vertex").text().as_str());
}

#[test]
fn test_imgui_mode_names() {
    assert_eq!("Background", ImguiMode::Background.as_str());
    assert_eq!("Clock/Timer", ImguiMode::ClockTimer.as_str());
    assert_eq!("FPS", ImguiMode::Fps.as_str());
    assert_eq!("Invalid", ImguiMode::Invalid.as_str());
}

#[test]
fn test_position_names() {
    assert_eq!("Center", Position::Center.as_str());
    assert_eq!("BottomRight", Position::BottomRight.as_str());
    assert_eq!("TopLeft", Position::TopLeft.as_str());
}

#[test]
fn test_dialog_backend_title() {
    assert_eq!("Needle", DialogBackend::Zenity("Needle", [300, 100]).title());
    assert_eq!("Alert", DialogBackend::KDialog("Alert").title());
    assert_eq!("Note", DialogBackend::Stdio("Note").title());
    assert_eq!("Box", DialogBackend::Dialog("Box", [300, 100]).title());
    assert_eq!("Win", DialogBackend::WinApi("Win").title());
}
