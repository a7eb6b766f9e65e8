//! The compositor selector.  Exactly one adapter serves the process,
//! chosen once from the runtime environment's markers; with no
//! supported compositor present there is no workspace client, and the
//! caller sees that as an error rather than a retry.

use vstd::prelude::*;

verus! {

/// Which adapter serves the process.
#[derive(Clone, Copy, PartialEq, Eq, Structural, Debug)]
pub enum CompositorKind {
    /// The reconstruction-based, event-polling adapter.
    Hyprland,
    /// The structured-event adapter.
    Sway,
}

/// Why no adapter can serve the process.
#[derive(Clone, Copy, PartialEq, Eq, Structural, Debug)]
pub enum SelectorError {
    /// No supported compositor's environment markers are present.
    NoCompositorDetected,
}

impl SelectorError {
    /// A readable description of the error.
    pub fn message(&self) -> (r: &'static str)
        ensures
            r@ == "no compositor detected"@,
    {
        "no compositor detected"
    }
}

/// Chooses the adapter from the environment markers the plumbing
/// found: the reconstruction adapter when its compositor's instance
/// signature is present, else the structured-event adapter when its
/// socket marker is present; with neither, no client exists.
pub fn detect_compositor(hyprland_marker: bool, sway_marker: bool) -> (r: Result<
    CompositorKind,
    SelectorError,
>)
    ensures
        hyprland_marker ==> r == Ok::<CompositorKind, SelectorError>(CompositorKind::Hyprland),
        !hyprland_marker && sway_marker ==> r == Ok::<CompositorKind, SelectorError>(
            CompositorKind::Sway,
        ),
        !hyprland_marker && !sway_marker ==> r == Err::<CompositorKind, SelectorError>(
            SelectorError::NoCompositorDetected,
        ),
{
    if hyprland_marker {
        Ok(CompositorKind::Hyprland)
    } else if sway_marker {
        Ok(CompositorKind::Sway)
    } else {
        Err(SelectorError::NoCompositorDetected)
    }
}

} // verus!
