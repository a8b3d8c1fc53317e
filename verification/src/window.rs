//! The main window as the controller sees it: visibility, input focus, and
//! the always-on-top flag. The window may be absent (destroyed, or not yet
//! created during startup/shutdown races); an operation that requires it
//! fails with a window error unless the caller chose silent no-op semantics.

use vstd::prelude::*;

use crate::error::StoreError;

verus! {

/// Observable state of the single main window.
#[derive(Clone, Copy, Debug, PartialEq, Eq, Structural)]
pub struct WindowModel {
    pub visible: bool,
    pub focused: bool,
    pub always_on_top: bool,
}

impl WindowModel {
    /// A freshly created window: shown, focused, not always-on-top.
    pub fn new() -> (w: WindowModel)
        ensures
            w == (WindowModel { visible: true, focused: true, always_on_top: false }),
    {
        WindowModel { visible: true, focused: true, always_on_top: false }
    }

    /// Shows the window and gives it input focus.
    pub fn show_and_focus(&mut self)
        ensures
            *final(self) == (WindowModel {
                visible: true,
                focused: true,
                always_on_top: old(self).always_on_top,
            }),
    {
        self.visible = true;
        self.focused = true;
    }

    /// Hides the window (minimize-to-tray); a hidden window has no focus.
    pub fn minimize(&mut self)
        ensures
            *final(self) == (WindowModel {
                visible: false,
                focused: false,
                always_on_top: old(self).always_on_top,
            }),
    {
        self.visible = false;
        self.focused = false;
    }

    /// Sets the always-on-top flag, leaving visibility and focus unchanged.
    pub fn set_always_on_top(&mut self, on_top: bool)
        ensures
            *final(self) == (WindowModel {
                visible: old(self).visible,
                focused: old(self).focused,
                always_on_top: on_top,
            }),
    {
        self.always_on_top = on_top;
    }
}

/// Hides the main window if there is one: the minimize-to-tray command.
/// Fails with a window error exactly when the window handle is unavailable.
pub fn minimize_to_tray(window: &mut Option<WindowModel>) -> (r: Result<(), StoreError>)
    ensures
        match *old(window) {
            Some(w) => r is Ok && *final(window) == Some(
                WindowModel { visible: false, focused: false, always_on_top: w.always_on_top },
            ),
            None => r == Err::<(), StoreError>(StoreError::Window) && *final(window) == *old(
                window,
            ),
        },
{
    match window {
        Some(w) => {
            w.minimize();
            Ok(())
        },
        None => Err(StoreError::Window),
    }
}

/// Sets the main window's always-on-top flag if there is one. Fails with a
/// window error exactly when the window handle is unavailable.
pub fn set_always_on_top(window: &mut Option<WindowModel>, on_top: bool) -> (r: Result<
    (),
    StoreError,
>)
    ensures
        match *old(window) {
            Some(w) => r is Ok && *final(window) == Some(
                WindowModel { visible: w.visible, focused: w.focused, always_on_top: on_top },
            ),
            None => r == Err::<(), StoreError>(StoreError::Window) && *final(window) == *old(
                window,
            ),
        },
{
    match window {
        Some(w) => {
            w.set_always_on_top(on_top);
            Ok(())
        },
        None => Err(StoreError::Window),
    }
}

/// Whether the application may post OS notifications. On desktop they are
/// enabled by default, so permission is always granted.
pub fn request_notification_permission() -> (r: Result<bool, StoreError>)
    ensures
        r == Ok::<bool, StoreError>(true),
{
    Ok(true)
}

} // verus!
