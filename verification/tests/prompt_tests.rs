use changyan::prompt::{build_system_prompt, AppType};

#[test]
fn test_build_prompt_without_translation() {
    let prompt = build_system_prompt(AppType::General, &[], false, "", false, &[]);
    assert!(prompt.contains("voice-to-text assistant"));
    assert!(!prompt.contains("AFTER cleaning"));
}

#[test]
fn test_build_prompt_with_translation_disabled() {
    let prompt = build_system_prompt(AppType::General, &[], false, "ja", false, &[]);
    assert!(!prompt.contains("translate the entire result into Japanese"));
    assert!(!prompt.contains("AFTER cleaning"));
}

#[test]
fn test_build_prompt_with_translation_enabled() {
    let prompt = build_system_prompt(AppType::General, &[], true, "ja", false, &[]);
    assert!(prompt.contains("translate the entire result into Japanese"));
}

#[test]
fn test_build_prompt_with_empty_target_lang() {
    let prompt = build_system_prompt(AppType::General, &[], true, "", false, &[]);
    assert!(!prompt.contains("AFTER cleaning"));
}

#[test]
fn test_build_prompt_with_whitespace_target_lang() {
    let prompt = build_system_prompt(AppType::General, &[], true, "   ", false, &[]);
    assert!(!prompt.contains("AFTER cleaning"));
}

#[test]
fn test_build_prompt_all_languages() {
    let cases = vec![
        ("en", "English"),
        ("zh", "Chinese"),
        ("ja", "Japanese"),
        ("ko", "Korean"),
        ("fr", "French"),
        ("de", "German"),
        ("es", "Spanish"),
        ("pt", "Portuguese"),
        ("ru", "Russian"),
        ("ar", "Arabic"),
        ("hi", "Hindi"),
        ("th", "Thai"),
        ("vi", "Vietnamese"),
        ("it", "Italian"),
        ("nl", "Dutch"),
        ("tr", "Turkish"),
        ("pl", "Polish"),
        ("uk", "Ukrainian"),
        ("id", "Indonesian"),
        ("ms", "Malay"),
    ];
    for (code, name) in cases {
        let prompt = build_system_prompt(AppType::General, &[], true, code, false, &[]);
        assert!(
            prompt.contains(name),
            "Expected prompt to contain '{}' for lang code '{}'",
            name,
            code
        );
    }
}

#[test]
fn test_build_prompt_unknown_language_passthrough() {
    let prompt = build_system_prompt(AppType::General, &[], true, "sv", false, &[]);
    assert!(prompt.contains("translate the entire result into sv"));
}

#[test]
fn test_build_prompt_with_app_type_email() {
    let prompt = build_system_prompt(AppType::Email, &[], false, "", false, &[]);
    assert!(prompt.contains("formal"));
}

#[test]
fn test_build_prompt_with_dictionary() {
    let dict = vec!["ChangYan".to_string(), "Tauri".to_string()];
    let prompt = build_system_prompt(AppType::General, &dict, false, "", false, &[]);
    assert!(prompt.contains("\"ChangYan\""));
    assert!(prompt.contains("\"Tauri\""));
}

#[test]
fn test_build_prompt_with_dictionary_and_translation() {
    let dict = vec!["API".to_string()];
    let prompt = build_system_prompt(AppType::Chat, &dict, true, "zh", false, &[]);
    assert!(prompt.contains("casual"));
    assert!(prompt.contains("\"API\""));
    assert!(prompt.contains("translate the entire result into Chinese"));
}

#[test]
fn test_prompt_has_structure_rule() {
    let prompt = build_system_prompt(AppType::General, &[], false, "", false, &[]);
    assert!(prompt.contains("LISTS"));
    assert!(prompt.contains("numbered list"));
    assert!(prompt.contains("own line"));
}

#[test]
fn test_prompt_has_long_dictation_rule() {
    let prompt = build_system_prompt(AppType::General, &[], false, "", false, &[]);
    assert!(prompt.contains("PARAGRAPHS"));
    assert!(prompt.contains("blank line"));
}

#[test]
fn test_prompt_has_examples() {
    let prompt = build_system_prompt(AppType::General, &[], false, "", false, &[]);
    assert!(prompt.contains("Examples:"));
    assert!(prompt.contains("首先我们需要买牛奶"));
    assert!(prompt.contains("1. 买牛奶"));
    assert!(prompt.contains("我觉得这个方案还不错"));
}

#[test]
fn test_prompt_selected_text_mode() {
    let prompt = build_system_prompt(AppType::General, &[], false, "", true, &[]);
    assert!(prompt.contains("SELECTED TEXT MODE"));
    assert!(prompt.contains("fix typos"));
}

#[test]
fn test_prompt_no_selected_text_mode() {
    let prompt = build_system_prompt(AppType::General, &[], false, "", false, &[]);
    assert!(!prompt.contains("SELECTED TEXT MODE"));
}

#[test]
fn test_prompt_chat_no_markdown() {
    let prompt = build_system_prompt(AppType::Chat, &[], false, "", false, &[]);
    assert!(prompt.contains("No over-formatting"));
    assert!(prompt.contains("instead of Markdown"));
}

#[test]
fn test_prompt_document_uses_markdown() {
    let prompt = build_system_prompt(AppType::Document, &[], false, "", false, &[]);
    assert!(prompt.contains("Markdown"));
}

#[test]
fn test_prompt_selected_text_with_translation() {
    let prompt = build_system_prompt(AppType::General, &[], true, "en", true, &[]);
    assert!(prompt.contains("SELECTED TEXT MODE"));
    assert!(prompt.contains("applying the user's instruction to the selected text"));
    assert!(prompt.contains("English"));
    // Selected text addon should come BEFORE translation
    let sel_pos = prompt.find("SELECTED TEXT MODE").unwrap();
    let trans_pos = prompt.find("AFTER applying").unwrap();
    assert!(
        sel_pos < trans_pos,
        "SELECTED TEXT MODE should appear before translation instruction"
    );
}

#[test]
fn test_prompt_no_selected_text_translation_wording() {
    let prompt = build_system_prompt(AppType::General, &[], true, "zh", false, &[]);
    assert!(prompt.contains("AFTER cleaning the text"));
    assert!(!prompt.contains("applying the user's instruction"));
}

#[test]
fn test_prompt_reads_as_typed() {
    let prompt = build_system_prompt(AppType::General, &[], false, "", false, &[]);
    assert!(prompt.contains("typed — not transcribed"));
}

#[test]
fn test_prompt_has_consistency_rule() {
    let prompt = build_system_prompt(AppType::General, &[], false, "", false, &[]);
    assert!(prompt.contains("Be consistent"));
    assert!(prompt.contains("do not mix formatting styles"));
}

#[test]
fn test_prompt_has_multilingual_rule() {
    let prompt = build_system_prompt(AppType::General, &[], false, "", false, &[]);
    assert!(prompt.contains("mixed languages"));
}

#[test]
fn test_prompt_has_punctuation_rule() {
    let prompt = build_system_prompt(AppType::General, &[], false, "", false, &[]);
    assert!(prompt.contains("PUNCTUATION"));
    assert!(prompt.contains("most important rule"));
}

#[test]
fn test_prompt_intent_rule() {
    let prompt = build_system_prompt(AppType::General, &[], false, "", false, &[]);
    assert!(prompt.contains("INTENT"));
    assert!(prompt.contains("intent"));
}

#[test]
fn test_prompt_filler_removal_includes_ah() {
    let prompt = build_system_prompt(AppType::General, &[], false, "", false, &[]);
    // 啊 should be in the filler list
    assert!(prompt.contains('啊'));
}

#[test]
fn test_prompt_style_examples_included() {
    let examples = vec!["This is a style example.".to_string()];
    let prompt = build_system_prompt(AppType::General, &[], false, "", false, &examples);
    assert!(prompt.contains("STYLE REFERENCE"));
    assert!(prompt.contains("This is a style example."));
}

#[test]
fn test_prompt_no_style_examples_when_empty() {
    let prompt = build_system_prompt(AppType::General, &[], false, "", false, &[]);
    assert!(!prompt.contains("STYLE REFERENCE"));
}

#[test]
fn test_prompt_style_examples_capped_at_three() {
    let examples: Vec<String> = (1..=5).map(|i| format!("Example text {}", i)).collect();
    let prompt = build_system_prompt(AppType::General, &[], false, "", false, &examples);
    assert!(prompt.contains("Example text 1"));
    assert!(prompt.contains("Example text 3"));
    assert!(!prompt.contains("Example text 4"));
}

#[test]
fn prompt_without_extras_is_the_base_prompt() {
    let prompt = build_system_prompt(AppType::Code, &[], false, "", false, &[]);
    assert_eq!(prompt, changyan::prompt::BASE_PROMPT);
}

#[test]
fn prompt_sections_come_in_order() {
    let dict = vec!["Verus".to_string()];
    let examples = vec!["Short one.".to_string()];
    let prompt = build_system_prompt(AppType::Email, &dict, true, " fr ", true, &examples);
    let expected = format!(
        "{}{}{}\nExample 1: Short one.{}\n- \"Verus\"{}{}French (Français){}",
        changyan::prompt::BASE_PROMPT,
        changyan::prompt::EMAIL_ADDON,
        changyan::prompt::STYLE_HEADER,
        changyan::prompt::DICTIONARY_HEADER,
        changyan::prompt::SELECTED_TEXT_ADDON,
        changyan::prompt::TRANSLATE_SELECTED_OPEN,
        changyan::prompt::TRANSLATE_CLOSE,
    );
    assert_eq!(prompt, expected);
}

#[test]
fn long_ascii_style_example_is_cut_at_200_bytes() {
    let long = "x".repeat(250);
    let quoted: String = changyan::prompt::quote_example(&long).into_iter().collect();
    assert_eq!(quoted, format!("{}…", "x".repeat(200)));
}

#[test]
fn long_multibyte_style_example_is_cut_on_a_char_boundary() {
    // 'é' takes two bytes: characters start at bytes 0, 2, ..., so 100 start before byte 200.
    let long = "é".repeat(120);
    let quoted: String = changyan::prompt::quote_example(&long).into_iter().collect();
    assert_eq!(quoted, format!("{}…", "é".repeat(100)));
    // A three-byte character that starts at byte 199 is kept whole.
    let mixed = format!("{}中{}", "a".repeat(199), "b".repeat(10));
    let quoted: String = changyan::prompt::quote_example(&mixed).into_iter().collect();
    assert_eq!(quoted, format!("{}中…", "a".repeat(199)));
}

#[test]
fn style_example_of_exactly_200_bytes_is_kept_whole() {
    let exact = "y".repeat(200);
    let quoted: String = changyan::prompt::quote_example(&exact).into_iter().collect();
    assert_eq!(quoted, exact);
}

#[test]
fn language_codes_are_trimmed_and_case_sensitive() {
    let prompt = build_system_prompt(AppType::General, &[], true, "\tde\n", false, &[]);
    assert!(prompt.ends_with("translate the entire result into German (Deutsch). Output ONLY the translated text."));
    let prompt = build_system_prompt(AppType::General, &[], true, "DE", false, &[]);
    assert!(prompt.ends_with("translate the entire result into DE. Output ONLY the translated text."));
}

#[test]
fn style_examples_are_numbered_from_one() {
    let examples = vec!["a".to_string(), "b".to_string()];
    let prompt = build_system_prompt(AppType::General, &[], false, "", false, &examples);
    assert!(prompt.ends_with("\nExample 1: a\nExample 2: b"));
}
