use changyan::settings::{
    resolve_api_base_url, validate_dictionary_entry, window_state_restorable, DEFAULT_API_BASE_URL,
};
use changyan::stt_local::{transcript_result, SenseVoiceLocalProvider, SttConfig};

#[test]
fn api_base_url_override() {
    assert_eq!(resolve_api_base_url(None), DEFAULT_API_BASE_URL);
    assert_eq!(resolve_api_base_url(Some("http://localhost:3000".to_string())), "http://localhost:3000");
    assert_eq!(resolve_api_base_url(Some(String::new())), "");
}

#[test]
fn dictionary_entries() {
    assert_eq!(validate_dictionary_entry("  Tauri  ", None), Ok("Tauri".to_string()));
    assert_eq!(validate_dictionary_entry("   ", None), Err("Word cannot be empty".to_string()));
    assert_eq!(
        validate_dictionary_entry(&"w".repeat(101), None),
        Err("Word is too long (max 100 characters)".to_string())
    );
    assert_eq!(validate_dictionary_entry(&"w".repeat(100), None), Ok("w".repeat(100)));
    // 34 three-byte characters are 102 bytes.
    assert_eq!(
        validate_dictionary_entry(&"畅".repeat(34), None),
        Err("Word is too long (max 100 characters)".to_string())
    );
    assert_eq!(
        validate_dictionary_entry("ok", Some(&"p".repeat(101))),
        Err("Pronunciation is too long (max 100 characters)".to_string())
    );
    assert_eq!(validate_dictionary_entry("ok", Some("oh-kay")), Ok("ok".to_string()));
}

fn config(language: Option<&str>) -> SttConfig {
    SttConfig {
        api_key: String::new(),
        language: language.map(|l| l.to_string()),
        smart_format: true,
        sample_rate: 16000,
    }
}

#[test]
fn local_recognizer_lifecycle() {
    let mut p = SenseVoiceLocalProvider::new("/models/sensevoice-small".to_string());
    assert_eq!(p.name(), "SenseVoice Small (Local)");
    assert_eq!(
        p.connect(&config(None), false),
        Err("SenseVoice model not found at /models/sensevoice-small. Please download it in Settings → Speech Recognition.".to_string())
    );
    assert!(p.begin_disconnect().is_none());
    assert_eq!(p.connect(&config(None), true), Ok(()));
    assert!(matches!(p.recv_transcript(), Ok(None)));
    p.send_audio(&[1, 2]);
    p.send_audio(&[3]);
    let job = p.begin_disconnect().unwrap();
    assert_eq!(job.audio, vec![1, 2, 3]);
    assert_eq!(job.sample_rate, 16000);
    assert_eq!(job.language, "auto");
    assert!(p.begin_disconnect().is_none());
}

#[test]
fn local_recognizer_without_audio_or_with_language() {
    let mut p = SenseVoiceLocalProvider::new("d".to_string());
    assert_eq!(p.connect(&config(Some("zh")), true), Ok(()));
    assert!(p.begin_disconnect().is_none());
    assert_eq!(p.connect(&config(Some("zh")), true), Ok(()));
    p.send_audio(&[9]);
    assert_eq!(p.begin_disconnect().unwrap().language, "zh");
}

#[test]
fn recognizer_text_is_trimmed() {
    assert_eq!(transcript_result("  你好 \n"), Some("你好".to_string()));
    assert_eq!(transcript_result(" \t "), None);
}

#[test]
fn window_states_worth_restoring() {
    assert!(window_state_restorable(100, 50, 1024, 768));
    assert!(!window_state_restorable(-32000, -32000, 1024, 768));
    assert!(!window_state_restorable(0, 0, 719, 768));
    assert!(!window_state_restorable(0, 0, 800, 479));
}
