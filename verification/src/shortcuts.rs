//! Global-shortcut decision logic.
//!
//! The application registers one fixed modifier+key combination for the
//! process lifetime and calls in here on every shortcut event; the decision
//! of whether to notify the UI is made and verified here, decoupled from
//! input detection and from capture orchestration.

use vstd::prelude::*;

verus! {

/// Whether a shortcut event must emit the capture-requested notification:
/// exactly on a key-down transition while the main application window
/// exists. A key-up event, or a missing main window, is silently ignored.
pub fn shortcut_should_notify(key_down: bool, main_window_exists: bool) -> (r: bool)
    ensures
        r == (key_down && main_window_exists),
{
    key_down && main_window_exists
}

} // verus!
