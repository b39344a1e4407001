use changyan::hotkey::{parse_hotkey, Code, Modifiers, Shortcut};
use changyan::pipeline::{
    finalize_polished, hotkey_action, llm_needed, llm_prewarm_url, output_route, provider_credential,
    record_menu_label, selected_text_result, shortcut_action, strip_emoji, stt_key_missing,
    stt_language, stt_prewarm_url, text_to_output, tray_tooltip, window_menu_label, HotkeyAction, OutputRoute,
    PipelineSession, PipelineState, ShortcutAction, TranscriptionOutcome, TranslateLastPlan,
};

#[test]
fn state_bytes_round_trip() {
    for s in [
        PipelineState::Idle,
        PipelineState::Recording,
        PipelineState::Transcribing,
        PipelineState::Polishing,
        PipelineState::Outputting,
    ] {
        assert_eq!(PipelineState::from_u8(s.as_u8()), s);
    }
    assert_eq!(PipelineState::Outputting.as_u8(), 4);
    assert_eq!(PipelineState::from_u8(200), PipelineState::Idle);
}

#[test]
fn strip_emoji_removes_only_emoji() {
    assert_eq!(strip_emoji("Done ✅ 🎉 ok"), "Done   ok");
    assert_eq!(strip_emoji("1\u{FE0F}\u{20E3} item"), "1 item");
    assert_eq!(strip_emoji("中文 text, no emoji."), "中文 text, no emoji.");
    let once = strip_emoji("☀ sunny ❄");
    assert_eq!(strip_emoji(&once), once);
}

#[test]
fn a_full_dictation() {
    let mut s = PipelineSession::new();
    assert!(s.begin_recording());
    assert!(!s.begin_recording());
    s.push_final_segment("hello");
    s.push_closing_segment("world");
    assert_eq!(s.transcript_so_far(), "hello world");
    assert!(s.begin_transcribing());
    assert!(!s.begin_transcribing());
    match s.finish_transcription() {
        TranscriptionOutcome::Ready { text, translate } => {
            assert_eq!(text, "hello world");
            assert!(!translate);
        }
        _ => panic!("expected a transcript"),
    }
    assert_eq!(s.last_raw_text, "hello world");
    s.set_state(PipelineState::Idle);
    match s.plan_translate_last("openai", "sk-1") {
        TranslateLastPlan::Translate(t) => assert_eq!(t, "hello world"),
        _ => panic!("expected a translation"),
    }
}

#[test]
fn cancelled_dictation_yields_nothing() {
    let mut s = PipelineSession::new();
    assert!(s.begin_recording());
    s.push_final_segment("some words");
    assert!(s.begin_transcribing());
    s.force_idle();
    assert_eq!(s.current_state(), PipelineState::Idle);
    assert!(matches!(s.finish_transcription(), TranscriptionOutcome::Cancelled));
    assert!(s.begin_recording());
    assert!(!s.cancelled);
    assert_eq!(s.transcript_so_far(), "");
}

#[test]
fn blank_transcript_returns_to_idle() {
    let mut s = PipelineSession::new();
    assert!(s.begin_recording());
    s.push_final_segment("  ");
    assert!(s.begin_transcribing());
    assert!(matches!(s.finish_transcription(), TranscriptionOutcome::Empty));
    assert_eq!(s.current_state(), PipelineState::Idle);
}

#[test]
fn translate_last_refusals() {
    let mut s = PipelineSession::new();
    assert!(matches!(s.plan_translate_last("openai", "k"), TranslateLastPlan::NoTranscript));
    s.last_raw_text = "text".to_string();
    assert!(matches!(s.plan_translate_last("openai", ""), TranslateLastPlan::MissingLlmKey));
    assert!(matches!(s.plan_translate_last("cloud", ""), TranslateLastPlan::Translate(_)));
    assert!(s.begin_recording());
    assert!(matches!(s.plan_translate_last("openai", "k"), TranslateLastPlan::Skip));
}

#[test]
fn translate_session_flag_is_read_once() {
    let mut s = PipelineSession::new();
    s.mark_translate_session();
    assert!(s.take_translate_session());
    assert!(!s.take_translate_session());
}

#[test]
fn stt_settings_decisions() {
    assert!(stt_key_missing("deepgram", ""));
    assert!(!stt_key_missing("cloud", ""));
    assert!(!stt_key_missing("sensevoice-local", ""));
    assert!(!stt_key_missing("deepgram", "key"));
    assert_eq!(stt_language("multi"), None);
    assert_eq!(stt_language("zh"), Some("zh".to_string()));
    assert_eq!(provider_credential("cloud", "token", "key"), "token");
    assert_eq!(provider_credential("openai", "token", "key"), "key");
}

#[test]
fn llm_is_needed_for_polish_or_translation_with_credentials() {
    assert!(llm_needed(true, false, "openai", "k"));
    assert!(llm_needed(false, true, "cloud", ""));
    assert!(!llm_needed(false, false, "openai", "k"));
    assert!(!llm_needed(true, false, "openai", ""));
}

#[test]
fn polished_text_is_trimmed_and_filtered() {
    assert_eq!(finalize_polished("  Hello 👋 there \n"), Some("Hello  there".to_string()));
    assert_eq!(finalize_polished(" 🎉 "), None);
    assert_eq!(finalize_polished(""), None);
}

#[test]
fn output_routes() {
    assert_eq!(output_route("keyboard", false, true), OutputRoute::CopyPopup);
    assert_eq!(output_route("keyboard", true, false), OutputRoute::CopyPopup);
    assert_eq!(output_route("keyboard", true, true), OutputRoute::Keyboard);
    assert_eq!(output_route("clipboard", false, true), OutputRoute::Clipboard);
}

#[test]
fn selected_text_capture() {
    let s = |x: &str| Some(x.to_string());
    assert_eq!(selected_text_result(s("old"), s("picked")), s("picked"));
    assert_eq!(selected_text_result(s("same"), s("same")), None);
    assert_eq!(selected_text_result(None, s("  ")), None);
    assert_eq!(selected_text_result(None, None), None);
    assert_eq!(selected_text_result(None, s("x")), s("x"));
}

#[test]
fn hotkey_presses_toggle_the_pipeline() {
    assert_eq!(hotkey_action(PipelineState::Idle), HotkeyAction::Start);
    assert_eq!(hotkey_action(PipelineState::Recording), HotkeyAction::Stop);
    assert_eq!(hotkey_action(PipelineState::Polishing), HotkeyAction::Cancel);
    let ctrl_t = Shortcut { mods: Modifiers::control(), key: Code::KeyT };
    assert_eq!(
        shortcut_action(true, "Ctrl+T", ctrl_t, PipelineState::Idle),
        ShortcutAction::StartRecording { translate: true }
    );
    let other = parse_hotkey("Ctrl+/").unwrap();
    assert_eq!(
        shortcut_action(true, "Ctrl+T", other, PipelineState::Idle),
        ShortcutAction::StartRecording { translate: false }
    );
    assert_eq!(shortcut_action(false, "", other, PipelineState::Idle), ShortcutAction::Ignore);
    assert_eq!(
        shortcut_action(true, "", other, PipelineState::Recording),
        ShortcutAction::StopRecording
    );
    assert_eq!(
        shortcut_action(true, "", other, PipelineState::Outputting),
        ShortcutAction::ForceIdle
    );
}

#[test]
fn tray_texts() {
    assert_eq!(tray_tooltip(PipelineState::Idle), "ChangYan");
    assert_eq!(tray_tooltip(PipelineState::Transcribing), "ChangYan - Transcribing...");
    assert_eq!(window_menu_label(true), "Hide Window");
    assert_eq!(record_menu_label(false), "Start Recording");
}

#[test]
fn prewarm_endpoints() {
    assert_eq!(
        stt_prewarm_url("cloud", "https://api.example.com"),
        Some("https://api.example.com/api/proxy/stt".to_string())
    );
    assert_eq!(
        stt_prewarm_url("deepgram", ""),
        Some("https://api.deepgram.com/v1/listen".to_string())
    );
    assert_eq!(stt_prewarm_url("sensevoice-local", ""), None);
    assert_eq!(llm_prewarm_url(false, "cloud", "", "b"), None);
    assert_eq!(
        llm_prewarm_url(true, "cloud", "", "https://b"),
        Some("https://b/api/proxy/llm".to_string())
    );
    assert_eq!(
        llm_prewarm_url(true, "openai", "https://api.openai.com/v1", "b"),
        Some("https://api.openai.com/v1".to_string())
    );
}

#[test]
fn translate_mark_is_handed_on_and_cleared() {
    let mut s = PipelineSession::new();
    s.mark_translate_session();
    assert!(s.begin_recording());
    s.push_final_segment("ni hao");
    assert!(s.begin_transcribing());
    match s.finish_transcription() {
        TranscriptionOutcome::Ready { text, translate } => {
            assert_eq!(text, "ni hao");
            assert!(translate);
        }
        _ => panic!("expected a transcript"),
    }
    assert!(!s.translate_session);
}

#[test]
fn translate_mark_cleared_when_cancelled_or_empty() {
    let mut s = PipelineSession::new();
    s.mark_translate_session();
    assert!(s.begin_recording());
    assert!(s.begin_transcribing());
    s.force_idle();
    assert!(matches!(s.finish_transcription(), TranscriptionOutcome::Cancelled));
    assert!(!s.translate_session);

    s.mark_translate_session();
    assert!(s.begin_recording());
    s.push_final_segment(" ");
    assert!(s.begin_transcribing());
    assert!(matches!(s.finish_transcription(), TranscriptionOutcome::Empty));
    assert!(!s.translate_session);

    assert!(s.begin_recording());
    s.push_final_segment("next");
    assert!(s.begin_transcribing());
    match s.finish_transcription() {
        TranscriptionOutcome::Ready { translate, .. } => assert!(!translate),
        _ => panic!("expected a transcript"),
    }
}

#[test]
fn cancel_blocks_polishing_and_output() {
    let mut s = PipelineSession::new();
    assert!(s.begin_recording());
    s.push_final_segment("hello");
    assert!(s.begin_transcribing());
    assert!(matches!(s.finish_transcription(), TranscriptionOutcome::Ready { .. }));
    assert!(s.advance(PipelineState::Polishing));
    assert_eq!(s.current_state(), PipelineState::Polishing);
    s.force_idle();
    assert!(s.is_cancelled());
    assert!(!s.advance(PipelineState::Outputting));
    assert_eq!(s.current_state(), PipelineState::Idle);
}

#[test]
fn releasing_the_hotkey_stops_recording() {
    let key = parse_hotkey("Ctrl+/").unwrap();
    assert_eq!(
        shortcut_action(false, "", key, PipelineState::Recording),
        ShortcutAction::StopRecording
    );
    assert_eq!(shortcut_action(false, "", key, PipelineState::Transcribing), ShortcutAction::Ignore);
    assert_eq!(shortcut_action(false, "", key, PipelineState::Outputting), ShortcutAction::Ignore);
}

#[test]
fn output_text_decisions() {
    assert_eq!(text_to_output("raw words", None).as_deref(), Some("raw words"));
    assert_eq!(
        text_to_output("raw words", Some(Err("timeout".to_string()))).as_deref(),
        Some("raw words")
    );
    assert_eq!(
        text_to_output("raw words", Some(Ok("  Polished 😀words. ".to_string()))).as_deref(),
        Some("Polished words.")
    );
    assert_eq!(text_to_output("um", Some(Ok("   ".to_string()))), None);
}

#[test]
fn history_due_only_when_not_cancelled() {
    let mut s = PipelineSession::new();
    assert!(s.begin_recording());
    assert!(s.history_due());
    s.force_idle();
    assert!(!s.history_due());
}
