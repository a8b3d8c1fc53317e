use focus_store::tray::{handle_tray_event, run_tray_event, TrayEvent, UiEvent};
use focus_store::window::{
    minimize_to_tray, request_notification_permission, set_always_on_top, WindowModel,
};
use focus_store::error::StoreError;

fn hidden_window() -> WindowModel {
    WindowModel { visible: false, focused: false, always_on_top: false }
}

#[test]
fn start_focus_without_window_is_a_silent_no_op() {
    let mut window: Option<WindowModel> = None;
    let outcome = run_tray_event(TrayEvent::MenuStartFocus, &mut window);
    assert_eq!(outcome.emitted, None);
    assert!(!outcome.exit);
    assert_eq!(window, None);
}

#[test]
fn start_focus_with_window_shows_focuses_and_emits_once() {
    let mut window = Some(hidden_window());
    let outcome = run_tray_event(TrayEvent::MenuStartFocus, &mut window);
    assert_eq!(outcome.emitted, Some(UiEvent::StartFocus));
    assert!(!outcome.exit);
    let w = window.unwrap();
    assert!(w.visible);
    assert!(w.focused);
}

#[test]
fn start_break_with_window_shows_focuses_and_emits_start_break() {
    let mut window = Some(hidden_window());
    let outcome = run_tray_event(TrayEvent::MenuStartBreak, &mut window);
    assert_eq!(outcome.emitted, Some(UiEvent::StartBreak));
    let w = window.unwrap();
    assert!(w.visible && w.focused);
}

#[test]
fn show_and_left_click_show_and_focus_without_emitting() {
    for ev in [TrayEvent::MenuShow, TrayEvent::LeftClick] {
        let mut window = Some(hidden_window());
        let outcome = run_tray_event(ev, &mut window);
        assert_eq!(outcome.emitted, None);
        assert!(!outcome.exit);
        let w = window.unwrap();
        assert!(w.visible && w.focused);
    }
}

#[test]
fn quit_terminates_with_or_without_a_window() {
    let mut window: Option<WindowModel> = None;
    let outcome = run_tray_event(TrayEvent::MenuQuit, &mut window);
    assert!(outcome.exit);
    assert_eq!(outcome.emitted, None);

    let mut window = Some(hidden_window());
    let outcome = run_tray_event(TrayEvent::MenuQuit, &mut window);
    assert!(outcome.exit);
    assert!(!window.unwrap().visible, "quit does not touch the window");
}

#[test]
fn unrecognized_events_do_nothing() {
    let mut window = Some(hidden_window());
    let outcome = run_tray_event(TrayEvent::Other, &mut window);
    assert_eq!(outcome.emitted, None);
    assert!(!outcome.exit);
    assert_eq!(window, Some(hidden_window()));
}

#[test]
fn plans_drop_window_actions_when_the_window_is_absent() {
    let plan = handle_tray_event(TrayEvent::MenuStartBreak, false);
    assert!(!plan.show_window && !plan.focus_window);
    assert_eq!(plan.emit, None);
    assert!(!plan.exit);
}

#[test]
fn minimize_to_tray_hides_the_window_or_reports_window_error() {
    let mut window = Some(WindowModel::new());
    assert_eq!(minimize_to_tray(&mut window), Ok(()));
    let w = window.unwrap();
    assert!(!w.visible && !w.focused);

    let mut absent: Option<WindowModel> = None;
    assert_eq!(minimize_to_tray(&mut absent), Err(StoreError::Window));
}

#[test]
fn set_always_on_top_flips_only_that_flag_or_reports_window_error() {
    let mut window = Some(WindowModel::new());
    assert_eq!(set_always_on_top(&mut window, true), Ok(()));
    let w = window.unwrap();
    assert!(w.always_on_top && w.visible && w.focused);

    let mut absent: Option<WindowModel> = None;
    assert_eq!(set_always_on_top(&mut absent, true), Err(StoreError::Window));
}

#[test]
fn ui_event_names_match_the_ui_channel() {
    assert_eq!(UiEvent::StartFocus.name(), "start-focus");
    assert_eq!(UiEvent::StartBreak.name(), "start-break");
}

#[test]
fn notification_permission_is_granted_on_desktop() {
    assert_eq!(request_notification_permission(), Ok(true));
}
