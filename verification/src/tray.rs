//! The tray controller's event-to-action mapping. Each tray or menu event
//! maps deterministically to a plan: whether to show and focus the window,
//! which UI event to emit, and whether to terminate. The controller is
//! stateless; when the main window is absent every window-directed action is
//! a silent no-op (the event is dropped, no error surfaced), since the window
//! may not exist during startup or shutdown.

use vstd::prelude::*;

use crate::window::WindowModel;

verus! {

/// A tray-icon or tray-menu event.
#[derive(Clone, Copy, Debug, PartialEq, Eq, Structural)]
pub enum TrayEvent {
    /// Left click on the tray icon itself.
    LeftClick,
    /// Menu entry "Show".
    MenuShow,
    /// Menu entry "Start Focus".
    MenuStartFocus,
    /// Menu entry "Start Break".
    MenuStartBreak,
    /// Menu entry "Quit".
    MenuQuit,
    /// Any other tray or menu event; ignored.
    Other,
}

/// An event emitted toward the UI, fire-and-forget, with empty payload.
#[derive(Clone, Copy, Debug, PartialEq, Eq, Structural)]
pub enum UiEvent {
    StartFocus,
    StartBreak,
}

/// What a tray event asks for: window actions, at most one UI event, and
/// whether the process terminates.
#[derive(Clone, Copy, Debug, PartialEq, Eq, Structural)]
pub struct TrayPlan {
    pub show_window: bool,
    pub focus_window: bool,
    pub emit: Option<UiEvent>,
    pub exit: bool,
}

/// The plan that does nothing.
pub open spec fn no_op_plan() -> TrayPlan {
    TrayPlan { show_window: false, focus_window: false, emit: None, exit: false }
}

/// The action each tray event maps to. Quit terminates whether or not the
/// window exists; every other event needs the window and is dropped without
/// error when it is absent — including its UI event, which is emitted through
/// the window.
pub open spec fn tray_plan_spec(ev: TrayEvent, window_present: bool) -> TrayPlan {
    match ev {
        TrayEvent::MenuQuit => TrayPlan {
            show_window: false,
            focus_window: false,
            emit: None,
            exit: true,
        },
        TrayEvent::LeftClick | TrayEvent::MenuShow => if window_present {
            TrayPlan { show_window: true, focus_window: true, emit: None, exit: false }
        } else {
            no_op_plan()
        },
        TrayEvent::MenuStartFocus => if window_present {
            TrayPlan {
                show_window: true,
                focus_window: true,
                emit: Some(UiEvent::StartFocus),
                exit: false,
            }
        } else {
            no_op_plan()
        },
        TrayEvent::MenuStartBreak => if window_present {
            TrayPlan {
                show_window: true,
                focus_window: true,
                emit: Some(UiEvent::StartBreak),
                exit: false,
            }
        } else {
            no_op_plan()
        },
        TrayEvent::Other => no_op_plan(),
    }
}

/// Maps a tray event to its plan, given whether the main window handle could
/// be resolved. Never fails: an event that needs the absent window is a
/// silent no-op.
pub fn handle_tray_event(ev: TrayEvent, window_present: bool) -> (p: TrayPlan)
    ensures
        p == tray_plan_spec(ev, window_present),
{
    match ev {
        TrayEvent::MenuQuit => TrayPlan {
            show_window: false,
            focus_window: false,
            emit: None,
            exit: true,
        },
        TrayEvent::LeftClick | TrayEvent::MenuShow => {
            if window_present {
                TrayPlan { show_window: true, focus_window: true, emit: None, exit: false }
            } else {
                TrayPlan { show_window: false, focus_window: false, emit: None, exit: false }
            }
        },
        TrayEvent::MenuStartFocus => {
            if window_present {
                TrayPlan {
                    show_window: true,
                    focus_window: true,
                    emit: Some(UiEvent::StartFocus),
                    exit: false,
                }
            } else {
                TrayPlan { show_window: false, focus_window: false, emit: None, exit: false }
            }
        },
        TrayEvent::MenuStartBreak => {
            if window_present {
                TrayPlan {
                    show_window: true,
                    focus_window: true,
                    emit: Some(UiEvent::StartBreak),
                    exit: false,
                }
            } else {
                TrayPlan { show_window: false, focus_window: false, emit: None, exit: false }
            }
        },
        TrayEvent::Other => TrayPlan {
            show_window: false,
            focus_window: false,
            emit: None,
            exit: false,
        },
    }
}

/// What running one tray event produced: the UI events emitted, in emission
/// order, and whether the process terminates.
#[derive(Clone, Copy, Debug, PartialEq, Eq, Structural)]
pub struct TrayOutcome {
    pub emitted: Option<UiEvent>,
    pub exit: bool,
}

/// Runs one tray event against the window as the controller would: when the
/// window is present and the event asks for it, the window ends visible and
/// focused and the event's UI event is emitted exactly once; when the window
/// is absent, nothing happens and no error is surfaced.
pub fn run_tray_event(ev: TrayEvent, window: &mut Option<WindowModel>) -> (o: TrayOutcome)
    ensures
        ({
            let p = tray_plan_spec(ev, (*old(window)) is Some);
            &&& o.emitted == p.emit
            &&& o.exit == p.exit
            &&& *final(window) == (if p.show_window {
                Some(
                    WindowModel {
                        visible: true,
                        focused: true,
                        always_on_top: old(window)->0.always_on_top,
                    },
                )
            } else {
                *old(window)
            })
        }),
{
    let present = window.is_some();
    let plan = handle_tray_event(ev, present);
    if plan.show_window {
        match window {
            Some(w) => w.show_and_focus(),
            None => (),
        }
    }
    TrayOutcome { emitted: plan.emit, exit: plan.exit }
}

/// The name under which a UI event is emitted.
pub open spec fn ui_event_name_spec(e: UiEvent) -> Seq<char> {
    match e {
        UiEvent::StartFocus => "start-focus"@,
        UiEvent::StartBreak => "start-break"@,
    }
}

impl UiEvent {
    /// The event's name on the UI channel.
    pub fn name(self) -> (s: String)
        ensures
            s@ == ui_event_name_spec(self),
    {
        match self {
            UiEvent::StartFocus => String::from_str("start-focus"),
            UiEvent::StartBreak => String::from_str("start-break"),
        }
    }
}

} // verus!
