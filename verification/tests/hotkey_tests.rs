use changyan::hotkey::{
    default_shortcut, main_hotkey_binding, parse_hotkey, restored_binding, translate_hotkey_binding,
    Code, HotkeyBinding, HotkeyRegistration, Modifiers, Shortcut,
};

#[test]
fn test_parse_hotkey_ctrl_slash() {
    let s = parse_hotkey("Ctrl+/");
    assert!(s.is_some());
    let s = s.unwrap();
    assert_eq!(s.mods, Modifiers::control());
    assert_eq!(s.key, Code::Slash);
}

#[test]
fn test_parse_hotkey_ctrl_shift_a() {
    let s = parse_hotkey("Ctrl+Shift+A");
    assert!(s.is_some());
    let s = s.unwrap();
    assert_eq!(s.mods, Modifiers::control().union(Modifiers::shift()));
    assert_eq!(s.key, Code::KeyA);
}

#[test]
fn test_parse_hotkey_case_insensitive() {
    let s = parse_hotkey("cTrL+/");
    assert!(s.is_some());
    let s = s.unwrap();
    assert_eq!(s.mods, Modifiers::control());
    assert_eq!(s.key, Code::Slash);
}

#[test]
fn test_parse_hotkey_f_keys() {
    for (key, expected) in [("F1", Code::F1), ("F12", Code::F12)] {
        let s = parse_hotkey(&format!("Ctrl+{}", key));
        assert!(s.is_some(), "Failed to parse Ctrl+{}", key);
        assert_eq!(s.unwrap().key, expected);
    }
}

#[test]
fn test_parse_hotkey_meta_modifier() {
    for name in ["Meta", "Super", "Win", "Cmd"] {
        let s = parse_hotkey(&format!("{}+A", name));
        assert!(s.is_some(), "Failed to parse {}+A", name);
        assert_eq!(s.unwrap().mods, Modifiers::meta());
    }
}

#[test]
fn test_parse_hotkey_no_modifier() {
    let s = parse_hotkey("A");
    assert!(s.is_some());
    assert_eq!(s.unwrap().mods, Modifiers::empty());
}

#[test]
fn test_parse_hotkey_invalid_key() {
    let s = parse_hotkey("Alt+InvalidKey");
    assert!(s.is_none());
}

#[test]
fn test_parse_hotkey_empty_string() {
    let s = parse_hotkey("");
    assert!(s.is_none());
}

#[test]
fn test_parse_hotkey_digits() {
    let s = parse_hotkey("Ctrl+0");
    assert!(s.is_some());
    assert_eq!(s.unwrap().key, Code::Digit0);

    let s = parse_hotkey("Ctrl+9");
    assert!(s.is_some());
    assert_eq!(s.unwrap().key, Code::Digit9);
}

#[test]
fn test_parse_hotkey_navigation_keys() {
    for (key, expected) in [
        ("Enter", Code::Enter),
        ("Tab", Code::Tab),
        ("Escape", Code::Escape),
        ("Backspace", Code::Backspace),
        ("Delete", Code::Delete),
        ("Up", Code::ArrowUp),
        ("Down", Code::ArrowDown),
    ] {
        let s = parse_hotkey(&format!("Alt+{}", key));
        assert!(s.is_some(), "Failed to parse Alt+{}", key);
        assert_eq!(s.unwrap().key, expected);
    }
}

#[test]
fn spaces_around_pieces_are_ignored() {
    let s = parse_hotkey("  ctrl +  shift+ space ").unwrap();
    assert_eq!(s.mods, Modifiers::control().union(Modifiers::shift()));
    assert_eq!(s.key, Code::Space);
}

#[test]
fn modifier_order_and_repetition_do_not_matter() {
    assert_eq!(parse_hotkey("Shift+Ctrl+K"), parse_hotkey("Ctrl+Shift+K"));
    assert_eq!(parse_hotkey("Ctrl+Ctrl+K"), parse_hotkey("Ctrl+K"));
}

#[test]
fn kelvin_sign_lowercases_to_k() {
    let s = parse_hotkey("Alt+\u{212A}").unwrap();
    assert_eq!(s.key, Code::KeyK);
}

#[test]
fn unknown_modifier_and_empty_pieces_are_refused() {
    assert!(parse_hotkey("Hyper+A").is_none());
    assert!(parse_hotkey("Ctrl++").is_none());
    assert!(parse_hotkey("Ctrl+").is_none());
    assert_eq!(parse_hotkey("Ctrl+Minus").unwrap().key, Code::Minus);
    assert_eq!(parse_hotkey("Ctrl+-").unwrap().key, Code::Minus);
}

#[test]
fn default_shortcut_falls_back_to_ctrl_slash() {
    let fallback = Shortcut { mods: Modifiers::control(), key: Code::Slash };
    assert_eq!(default_shortcut("Fn"), fallback);
    assert_eq!(default_shortcut("Alt+Space").key, Code::Space);
}

#[test]
fn hotkey_bindings() {
    assert_eq!(main_hotkey_binding("Fn"), Ok(HotkeyBinding::FnKey));
    assert_eq!(
        main_hotkey_binding("Alt+F4"),
        Ok(HotkeyBinding::Shortcut(Shortcut { mods: Modifiers::alt(), key: Code::F4 }))
    );
    assert_eq!(main_hotkey_binding("Alt+Nope"), Err("Invalid hotkey: Alt+Nope".to_string()));
    assert_eq!(translate_hotkey_binding(""), Ok(None));
    assert_eq!(translate_hotkey_binding("bad key"), Err("Invalid hotkey: bad key".to_string()));
    assert_eq!(
        restored_binding("garbage", "Fn"),
        HotkeyBinding::Shortcut(Shortcut { mods: Modifiers::control(), key: Code::Slash })
    );
    assert_eq!(restored_binding("Fn", "Fn"), HotkeyBinding::FnKey);
}

#[test]
fn padding_order_and_case_of_modifiers_change_nothing() {
    let a = parse_hotkey(" shift + CTRL+a");
    assert!(a.is_some());
    assert_eq!(a, parse_hotkey("Ctrl+Shift+A"));
    assert_eq!(parse_hotkey("ctrl+ctrl+shift+a"), parse_hotkey("Ctrl+Shift+A"));
}

#[test]
fn resume_after_pause_restores_shortcut_settings() {
    let mut reg = HotkeyRegistration::configured("Ctrl+Shift+A", "Alt+T", "Ctrl+/");
    assert!(!reg.fn_enabled);
    assert!(!reg.recording);
    let expected = vec![parse_hotkey("Ctrl+Shift+A").unwrap(), parse_hotkey("Alt+T").unwrap()];
    assert_eq!(reg.registered, expected);
    reg.pause();
    assert!(!reg.fn_enabled);
    assert!(reg.recording);
    assert!(reg.registered.is_empty());
    reg.resume("Ctrl+Shift+A", "Alt+T", "Ctrl+/");
    assert!(!reg.fn_enabled);
    assert!(!reg.recording);
    assert_eq!(reg.registered, expected);
}

#[test]
fn resume_after_pause_restores_fn_key() {
    let mut reg = HotkeyRegistration::configured("Fn", "", "Ctrl+/");
    assert!(reg.fn_enabled);
    assert!(reg.registered.is_empty());
    reg.pause();
    assert!(!reg.fn_enabled);
    assert!(reg.recording);
    reg.resume("Fn", "", "Ctrl+/");
    assert!(reg.fn_enabled);
    assert!(!reg.recording);
    assert!(reg.registered.is_empty());
}

#[test]
fn resume_falls_back_to_default_shortcut() {
    let mut reg = HotkeyRegistration::configured("Fn", "", "Ctrl+/");
    reg.pause();
    reg.resume("Hyper+Q", "bad+", "Ctrl+/");
    assert!(!reg.fn_enabled);
    assert_eq!(reg.registered, vec![parse_hotkey("Ctrl+/").unwrap()]);
}
