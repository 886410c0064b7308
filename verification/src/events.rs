//! The events that other threads send to the application.

use vstd::prelude::*;

verus! {

/// An event from outside the window system.
#[derive(Debug, Clone, Copy)]
pub enum AppEvent {
    /// A terminal may have output.
    Wake,
    /// Show the hidden main window, or hide the shown one.
    ToggleVisibility,
    /// Show or hide the main window.
    SetVisible(bool),
    /// The configuration or a theme changed on disk.
    ConfigChanged,
}

} // verus!
