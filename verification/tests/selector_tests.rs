use workspace_events::selector::{detect_compositor, CompositorKind, SelectorError};

#[test]
fn hyprland_marker_wins() {
    assert_eq!(detect_compositor(true, false), Ok(CompositorKind::Hyprland));
    assert_eq!(detect_compositor(true, true), Ok(CompositorKind::Hyprland));
}

#[test]
fn sway_marker_when_no_hyprland() {
    assert_eq!(detect_compositor(false, true), Ok(CompositorKind::Sway));
}

#[test]
fn no_marker_is_an_error_not_a_retry() {
    let err = detect_compositor(false, false).unwrap_err();
    assert_eq!(err, SelectorError::NoCompositorDetected);
    assert_eq!(err.message(), "no compositor detected");
}
