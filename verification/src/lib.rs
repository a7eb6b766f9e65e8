//! A verified model of a compositor workspace-tracking layer.
//!
//! The library keeps one shared vocabulary of workspace state
//! ([`model`]), and two adapters that translate a compositor's native
//! event stream into that vocabulary: a reconstruction-based adapter
//! for a compositor whose events omit previous-focus information
//! ([`hyprland`]), and a direct translation for a compositor whose
//! events carry focus and visibility flags ([`sway`]).  The adapters'
//! decision logic is pure and fully specified; the surrounding socket
//! and channel plumbing lives outside the library and hands it plain
//! values.

pub mod buffer;
pub mod hyprland;
pub mod model;
pub mod numerals;
pub mod selector;
pub mod sway;
