//! Overlay-capture handshake: coordinates a freshly captured full-screen
//! snapshot with the one overlay window used for region selection.
//!
//! The session owns the snapshot slot and tracks the overlay window through
//! the states absent, hidden and visible. The surrounding application
//! performs the platform work (capturing pixels, building, showing and
//! hiding the window) and reports each outcome back; every decision — when
//! to stage a snapshot, whether the window must be created or reused, and
//! the rollback of a staged snapshot when the window cannot be built — is
//! made and verified here.

use vstd::prelude::*;

use crate::store::SnapshotStore;

verus! {

/// Lifecycle of the single overlay window instance.
#[derive(Clone, Copy, PartialEq, Eq, Structural, Debug)]
pub enum WindowState {
    /// No overlay window has been created yet.
    Absent,
    /// The window exists but is not shown.
    Hidden,
    /// The window is shown, fullscreen, above the frozen snapshot.
    Visible,
}

/// What the application must do to surface the overlay after a snapshot has
/// been staged.
#[derive(Clone, Copy, PartialEq, Eq, Structural, Debug)]
pub enum OverlayCommand {
    /// No window exists: build it (borderless, always-on-top, fullscreen,
    /// initially hidden, skipping the taskbar, focusable, closable,
    /// non-resizable), then show it.
    CreateWindow,
    /// The window already exists: hide it, then show it fullscreen again.
    ReuseWindow,
}

/// Mathematical model of an overlay session: the window's lifecycle state
/// and the staged snapshot bytes, if any.
pub struct SessionView {
    pub window: WindowState,
    pub snapshot: Option<Seq<u8>>,
}

/// Session state after a capture succeeded and its encoding was staged:
/// the new bytes overwrite whatever the slot held before.
pub open spec fn staged(v: SessionView, bytes: Seq<u8>) -> SessionView {
    SessionView { window: v.window, snapshot: Some(bytes) }
}

/// Session state after the snapshot slot is emptied.
pub open spec fn cleared(v: SessionView) -> SessionView {
    SessionView { window: v.window, snapshot: None }
}

/// Session state after a hide request: a visible window becomes hidden,
/// anything else is left alone.
pub open spec fn hidden(v: SessionView) -> SessionView {
    SessionView {
        window: match v.window {
            WindowState::Visible => WindowState::Hidden,
            w => w,
        },
        snapshot: v.snapshot,
    }
}

/// Coordinates one overlay window and one staged snapshot across the
/// process lifetime. The window is created lazily on the first capture and
/// reused afterwards, never recreated.
pub struct OverlaySession {
    window: WindowState,
    store: SnapshotStore,
}

impl View for OverlaySession {
    type V = SessionView;

    closed spec fn view(&self) -> SessionView {
        SessionView { window: self.window, snapshot: self.store@ }
    }
}

impl OverlaySession {
    /// A fresh session: no window, no staged snapshot.
    pub fn new() -> (s: OverlaySession)
        ensures
            s@.window is Absent,
            s@.snapshot is None,
    {
        OverlaySession { window: WindowState::Absent, store: SnapshotStore::new() }
    }

    /// Read the staged snapshot without clearing it; returns a copy.
    pub fn get_screenshot_data(&self) -> (r: Option<Vec<u8>>)
        ensures
            match r {
                Some(v) => self@.snapshot == Some(v@),
                None => self@.snapshot is None,
            },
    {
        self.store.get()
    }

    /// Empty the snapshot slot, whatever it held; the window is untouched.
    pub fn clear_screenshot_data(&mut self)
        ensures
            final(self)@ == cleared(old(self)@),
    {
        self.store.clear();
    }

    /// First phase of a capture: the application hands over the outcome of
    /// capturing and encoding the primary monitor. On success the encoding
    /// is staged (overwriting any prior snapshot) and the returned command
    /// says whether the overlay window must be created or merely reused; the
    /// window is only surfaced afterwards, so the user sees the frozen
    /// image, never the live desktop. A failed capture changes nothing.
    pub fn capture_and_show_overlay(&mut self, capture: Result<Vec<u8>, String>) -> (r: Result<
        OverlayCommand,
        String,
    >)
        ensures
            capture matches Ok(bytes) ==> {
                &&& final(self)@ == staged(old(self)@, bytes@)
                &&& r == (if old(self)@.window is Absent {
                    Ok::<OverlayCommand, String>(OverlayCommand::CreateWindow)
                } else {
                    Ok::<OverlayCommand, String>(OverlayCommand::ReuseWindow)
                })
            },
            capture matches Err(e) ==> {
                &&& final(self)@ == old(self)@
                &&& r matches Err(m) && m@ == e@
            },
    {
        match capture {
            Ok(bytes) => {
                self.store.set(bytes);
                match self.window {
                    WindowState::Absent => Ok(OverlayCommand::CreateWindow),
                    _ => Ok(OverlayCommand::ReuseWindow),
                }
            },
            Err(e) => Err(e),
        }
    }

    /// Second phase of a capture: the application reports how surfacing the
    /// overlay went. On success the window is now visible and the snapshot
    /// stays staged. On failure the staged snapshot is rolled back before
    /// the error is surfaced, so no stale snapshot outlives a failed
    /// overlay; the window state is unchanged (creation failed, so none was
    /// built).
    pub fn overlay_surfaced(&mut self, outcome: Result<(), String>) -> (r: Result<(), String>)
        ensures
            outcome matches Ok(u) ==> {
                &&& final(self)@.window is Visible
                &&& final(self)@.snapshot == old(self)@.snapshot
                &&& r is Ok
            },
            outcome matches Err(e) ==> {
                &&& final(self)@ == cleared(old(self)@)
                &&& r matches Err(m) && m@ == e@
            },
    {
        match outcome {
            Ok(()) => {
                self.window = WindowState::Visible;
                Ok(())
            },
            Err(e) => {
                self.store.clear();
                Err(e)
            },
        }
    }

    /// Hide the overlay if it is visible. Returns whether the application
    /// must hide the platform window (true exactly when one exists). Never
    /// errors and is safe to call any number of times, including before any
    /// capture.
    pub fn hide_overlay_window(&mut self) -> (hide: bool)
        ensures
            final(self)@ == hidden(old(self)@),
            hide == !(old(self)@.window is Absent),
    {
        match self.window {
            WindowState::Absent => false,
            WindowState::Hidden => true,
            WindowState::Visible => {
                self.window = WindowState::Hidden;
                true
            },
        }
    }

    /// Compatibility alias: same handshake as [`Self::capture_and_show_overlay`].
    pub fn create_overlay_window(&mut self, capture: Result<Vec<u8>, String>) -> (r: Result<
        OverlayCommand,
        String,
    >)
        ensures
            capture matches Ok(bytes) ==> {
                &&& final(self)@ == staged(old(self)@, bytes@)
                &&& r == (if old(self)@.window is Absent {
                    Ok::<OverlayCommand, String>(OverlayCommand::CreateWindow)
                } else {
                    Ok::<OverlayCommand, String>(OverlayCommand::ReuseWindow)
                })
            },
            capture matches Err(e) ==> {
                &&& final(self)@ == old(self)@
                &&& r matches Err(m) && m@ == e@
            },
    {
        self.capture_and_show_overlay(capture)
    }

    /// Compatibility alias: same behaviour as [`Self::hide_overlay_window`].
    pub fn close_overlay_window(&mut self) -> (hide: bool)
        ensures
            final(self)@ == hidden(old(self)@),
            hide == !(old(self)@.window is Absent),
    {
        self.hide_overlay_window()
    }
}

/// A capture immediately followed by a read, with no clear in between,
/// returns exactly the just-captured encoding.
pub proof fn lemma_capture_then_read(v: SessionView, bytes: Seq<u8>)
    ensures
        staged(v, bytes).snapshot == Some(bytes),
{
}

/// A clear followed by a read returns absent, regardless of prior state.
pub proof fn lemma_clear_then_read(v: SessionView)
    ensures
        cleared(v).snapshot is None,
{
}

/// Hiding the overlay is idempotent: any number of consecutive hide
/// requests leaves the session exactly where the first one did.
pub proof fn lemma_hide_idempotent(v: SessionView)
    ensures
        hidden(hidden(v)) == hidden(v),
{
}

/// Two captures without an intervening clear each overwrite the slot: only
/// the second capture's bytes remain staged.
pub proof fn lemma_recapture_overwrites(v: SessionView, first: Seq<u8>, second: Seq<u8>)
    ensures
        staged(staged(v, first), second).snapshot == Some(second),
{
}

} // verus!
