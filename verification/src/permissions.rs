//! Platform capture-permission reporting.
//!
//! Platform capture APIs expose no direct permission query, so permission
//! is judged indirectly: the application attempts a monitor enumeration and
//! hands the outcome here. The display-server caution is derived from an
//! environment signal the application reads.

use vstd::prelude::*;

verus! {

/// Whether the process holds screen-capture permission: exactly when the
/// platform could enumerate monitors. On platforms without a capture
/// entitlement the enumeration succeeds and this reports true.
pub fn check_screen_permission(enumeration_succeeded: bool) -> (r: bool)
    ensures
        r == enumeration_succeeded,
{
    enumeration_succeeded
}

/// Advisory caution for display servers that do not reliably support
/// window-level capture: a warning exactly when the non-X11 display signal
/// is present, and never anything that blocks capture.
pub fn check_wayland(wayland_display_set: bool) -> (r: Option<String>)
    ensures
        r is Some <==> wayland_display_set,
        r matches Some(m) ==> m@
            == "Wayland detected. Screenshot capture may have limited functionality. For best results, use X11 or XWayland."@,
{
    if wayland_display_set {
        Some(
            String::from_str(
                "Wayland detected. Screenshot capture may have limited functionality. For best results, use X11 or XWayland.",
            ),
        )
    } else {
        None
    }
}

} // verus!
