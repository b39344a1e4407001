use changyan::fn_key::{FnKeyTap, KeyEventKind, TapAction, FN_FLAG, FN_KEYCODE, GLOBE_KEYCODE};
use changyan::focus::{
    is_edit_class, is_text_role, text_input_focused, windows_text_input_focused, ActivityLog,
    AppFocus, RoleProbe,
};

#[test]
fn recent_typing_and_clicks() {
    let mut log = ActivityLog::new();
    assert!(!log.recent_interaction(42, 1_000));
    log.record_text_key_activity(42, 10_000);
    assert!(log.recent_interaction(42, 39_999));
    assert!(!log.recent_interaction(42, 40_000));
    assert!(!log.recent_interaction(7, 10_001));
    log.record_click_activity(42, 50_000);
    assert!(log.recent_interaction(42, 169_999));
    assert!(!log.recent_interaction(42, 170_000));
}

#[test]
fn text_roles() {
    assert!(is_text_role("AXTextArea"));
    assert!(is_text_role("AXWebArea"));
    assert!(!is_text_role("AXButton"));
}

#[test]
fn focus_decisions() {
    let role = |r: &str| RoleProbe::Role(r.to_string());
    assert!(!text_input_focused(false, &AppFocus::ApiDisabled, &None, &None));
    assert!(!text_input_focused(false, &AppFocus::Focused(role("AXTextField")), &None, &None));
    assert!(text_input_focused(true, &AppFocus::NoAppElement, &None, &None));
    assert!(text_input_focused(true, &AppFocus::ApiDisabled, &None, &None));
    assert!(text_input_focused(true, &AppFocus::OtherError, &None, &None));
    assert!(text_input_focused(true, &AppFocus::Focused(role("AXTextField")), &None, &None));
    assert!(!text_input_focused(true, &AppFocus::Focused(role("AXButton")), &None, &None));
    assert!(text_input_focused(true, &AppFocus::Focused(RoleProbe::Unreadable), &None, &None));
    assert!(!text_input_focused(true, &AppFocus::NoFocusedElement, &Some(role("AXGroup")), &None));
    assert!(text_input_focused(
        true,
        &AppFocus::NoFocusedElement,
        &Some(RoleProbe::Unreadable),
        &None
    ));
    assert!(text_input_focused(
        true,
        &AppFocus::NoFocusedElement,
        &None,
        &Some(role("AXComboBox"))
    ));
    assert!(!text_input_focused(
        true,
        &AppFocus::NoFocusedElement,
        &None,
        &Some(role("AXButton"))
    ));
}

#[test]
fn no_focused_element_anywhere_means_paste() {
    assert!(text_input_focused(true, &AppFocus::NoFocusedElement, &None, &None));
}

#[test]
fn windows_edit_classes() {
    assert!(is_edit_class("Edit"));
    assert!(is_edit_class("RICHEDIT50W"));
    assert!(is_edit_class("Scintilla"));
    assert!(!is_edit_class("Button"));
    assert!(windows_text_input_focused(true, true, None));
    assert!(windows_text_input_focused(true, false, Some("WindowsForms10.EDIT.app")));
    assert!(!windows_text_input_focused(true, false, Some("")));
    assert!(!windows_text_input_focused(false, true, Some("Edit")));
}

#[test]
fn fn_key_presses_are_debounced() {
    let mut tap = FnKeyTap::new();
    assert_eq!(tap.on_event(KeyEventKind::KeyDown, GLOBE_KEYCODE, 0, false, true, 1_000), TapAction::SendPress);
    assert_eq!(tap.on_event(KeyEventKind::KeyDown, GLOBE_KEYCODE, 0, false, true, 1_050), TapAction::Pass);
    assert_eq!(tap.on_event(KeyEventKind::KeyUp, GLOBE_KEYCODE, 0, false, true, 1_100), TapAction::Pass);
    assert_eq!(tap.on_event(KeyEventKind::KeyDown, GLOBE_KEYCODE, 0, false, true, 1_200), TapAction::Pass);
    assert_eq!(tap.on_event(KeyEventKind::KeyUp, GLOBE_KEYCODE, 0, false, true, 1_250), TapAction::Pass);
    assert_eq!(
        tap.on_event(KeyEventKind::FlagsChanged, FN_KEYCODE, FN_FLAG, false, true, 1_400),
        TapAction::SendPress
    );
    assert_eq!(tap.on_event(KeyEventKind::FlagsChanged, FN_KEYCODE, 0, false, true, 1_450), TapAction::Pass);
    assert!(!tap.fn_pressed);
}

#[test]
fn fn_key_while_recording_a_hotkey() {
    let mut tap = FnKeyTap::new();
    assert_eq!(
        tap.on_event(KeyEventKind::FlagsChanged, FN_KEYCODE, FN_FLAG, true, true, 5_000),
        TapAction::NotifyFnDetected
    );
    assert_eq!(tap.on_event(KeyEventKind::KeyDown, 0, 0, true, true, 5_000), TapAction::Pass);
    assert_eq!(tap, FnKeyTap::new());
    assert_eq!(tap.on_event(KeyEventKind::KeyDown, GLOBE_KEYCODE, 0, false, false, 5_000), TapAction::Pass);
}
