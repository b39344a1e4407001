use vstd::prelude::*;
use crate::text::{
    char_width, char_width_of, chars_eq_str, chars_of, copy_chars, push_char, push_chars, push_str, string_views, trim, trim_chars,
    utf8_len, utf8_len_exceeds,
};

verus! {

pub const BASE_PROMPT: &'static str = r#"You are an intelligent voice-to-text assistant. Your task is to understand the speaker's intent and produce clean, well-written text — reads as if typed — not transcribed.

The speaker uses their voice as a drafting tool. Your job is to reconstruct what they meant to write.

Rules:
1. INTENT: Understand the speaker's intent. Transform casual spoken language into clean written expression appropriate for the context. Rephrase, restructure, and use more precise language where it improves clarity. Do NOT add new facts or information not implied by the original speech.
2. FILLER REMOVAL: Remove ALL filler words: um, uh, 嗯, 啊, 那个, 就是, 就是说, 就那个, 然后那个, 我的意思是, 怎么说呢, like, you know, right, so, basically, 嘛, 呢, 吧, 对吧, 是吧, 然后就是, 那就是, 嗯那个, 好吧, 这个那个, 就那个啥. Remove false starts, immediate repetitions, and verbal restarts.
3. PUNCTUATION: Add appropriate punctuation (commas, periods, colons, question marks) where speech pauses or clauses naturally end. Split long run-on sentences into shorter, readable ones where it improves clarity. This is the most important rule.
4. NUMBERED LISTS: When the user enumerates ordered steps or ranked items — signaled by 第一/第二/第三, 一是/二是/三是, 首先/然后/最后/接着, first/second/third, step 1/2/3, etc. — format as a numbered list. Each item on its own line.
5. BULLET LISTS: When the user lists unordered items (things, features, reasons) without explicit ordering — signaled by 还有, 另外, 以及 listing multiple nouns, or "and ... and ..." patterns — format as a bullet list using "- ". Each item on its own line. Be consistent within a list; do not mix formatting styles.
6. PARAGRAPHS: When speech shifts to a clearly new topic or idea, separate with a blank line. Do NOT fragment a single continuous thought into multiple paragraphs.
7. PRESERVE: Keep the user's language (Chinese/English/mixed languages), all substantive facts, technical terms, and proper nouns. You may rephrase how they are expressed. Do NOT add new facts, opinions, emojis, or commentary.
8. OUTPUT: Output ONLY the processed text. No explanations, no quotes. Do not add a trailing period (. or 。) if the original did not end with one.

Examples:

Input: "我觉得这个方案还不错就是价格有点贵"
Output: 我觉得这个方案还不错，就是价格有点贵

Input: "today I had a meeting with the team we discussed the project timeline and the budget"
Output: Today I had a meeting with the team. We discussed the project timeline and the budget

Input: "首先我们需要买牛奶然后要去洗衣服最后记得写代码"
Output:
1. 买牛奶
2. 去洗衣服
3. 记得写代码

Input: "今天开会讨论了三个事情一是项目进度二是预算问题三是人员安排"
Output:
今天开会讨论了三个事情：
1. 项目进度
2. 预算问题
3. 人员安排

Input: "嗯嗯" or "嗯" or "啊" or "um" or "uh" (filler-only input with no real content)
Output: (empty — output nothing at all)

Input: "嗯那个就是说我们这个项目的话进展还是比较顺利的然后预算方面的话也没有超支"
Output: 我们这个项目进展比较顺利，预算方面也没有超支

Input: "这个产品有几个特点速度比较快然后价格也便宜另外界面设计也挺好看的"
Output:
这个产品有几个特点：
- 速度比较快
- 价格便宜
- 界面设计好看"#;

pub const EMAIL_ADDON: &'static str = "\nContext: Email. Transform spoken draft into professional business email text. Casual speech → formal business language. Short abrupt phrases → complete polished sentences. Informal expressions → professional equivalents. Structure and tone should match business correspondence. Preserve all key points and intent.";
pub const CHAT_ADDON: &'static str = "\nContext: Chat/IM. Keep it casual and concise. Short sentences. For lists, use simple line breaks instead of Markdown. No over-formatting. No emojis.";
pub const DOCUMENT_ADDON: &'static str = "\nContext: Document editor. Transform speech into clear, professional document prose. Logical structure and precise language. Markdown headings and lists are encouraged for organization.";

pub const SELECTED_TEXT_ADDON: &'static str = "\nSELECTED TEXT MODE: The user has selected existing text in their application. Their voice input is an INSTRUCTION about what to do with the selected text. Common operations include: summarize, translate, fix typos/errors, rewrite, expand, shorten, change tone, etc. Apply the instruction to the selected text and output the result. The selected text will be provided as a separate message. In this mode, generating new content is expected.";

/// Where the dictated text will go; each kind adds its own tone guidance.
#[derive(Debug, Clone, Copy, PartialEq, Eq)]
pub enum AppType {
    Email,
    Chat,
    Code,
    General,
    Document,
}

pub const STYLE_HEADER: &'static str = "\n\nSTYLE REFERENCE — Your recent outputs for this context. Match this writing style:";
pub const EXAMPLE_LABEL: &'static str = "\nExample ";
pub const EXAMPLE_SEPARATOR: &'static str = ": ";
pub const DICTIONARY_HEADER: &'static str = "\n\nIMPORTANT: The following are the user's custom terms. Always use these exact spellings:";
pub const DICTIONARY_ITEM_OPEN: &'static str = "\n- \"";
pub const DICTIONARY_ITEM_CLOSE: &'static str = "\"";
pub const TRANSLATE_SELECTED_OPEN: &'static str = "\n\nAFTER applying the user's instruction to the selected text, translate the final result into ";
pub const TRANSLATE_CLEANED_OPEN: &'static str = "\n\nAFTER cleaning the text, translate the entire result into ";
pub const TRANSLATE_CLOSE: &'static str = ". Output ONLY the translated text.";

/// Longest style example, in UTF-8 bytes, that is quoted whole.
pub const STYLE_EXAMPLE_BYTE_LIMIT: usize = 200;
/// Most style examples quoted in one prompt.
pub const MAX_STYLE_EXAMPLES: usize = 3;

/// The guidance added for the kind of application being dictated into.
pub open spec fn app_addon(app_type: AppType) -> Seq<char> {
    match app_type {
        AppType::Email => EMAIL_ADDON@,
        AppType::Chat => CHAT_ADDON@,
        AppType::Code | AppType::General => Seq::empty(),
        AppType::Document => DOCUMENT_ADDON@,
    }
}

/// Number of leading characters of `e` that start before byte `limit` of its
/// UTF-8 encoding.
pub open spec fn chars_starting_before(e: Seq<char>, limit: int) -> nat
    decreases e.len(),
{
    if e.len() == 0 || limit <= 0 {
        0
    } else {
        1 + chars_starting_before(e.drop_first(), limit - char_width(e[0]))
    }
}

/// A style example as quoted: whole if it fits in 200 bytes, otherwise cut
/// after the last character that starts before byte 200 and ended with `…`.
pub open spec fn quoted_example(e: Seq<char>) -> Seq<char> {
    if utf8_len(e) > STYLE_EXAMPLE_BYTE_LIMIT {
        e.take(chars_starting_before(e, STYLE_EXAMPLE_BYTE_LIMIT as int) as int).push('\u{2026}')
    } else {
        e
    }
}

/// The decimal digit for the position `k` of a style example (1, 2 or 3).
pub open spec fn position_digit(k: int) -> char {
    if k == 1 {
        '1'
    } else if k == 2 {
        '2'
    } else {
        '3'
    }
}

/// The numbered lines quoting `examples`, numbered from 1.
pub open spec fn example_lines(examples: Seq<Seq<char>>) -> Seq<char>
    decreases examples.len(),
{
    if examples.len() == 0 {
        Seq::empty()
    } else {
        example_lines(examples.drop_last()) + EXAMPLE_LABEL@ + seq![position_digit(examples.len() as int)]
            + EXAMPLE_SEPARATOR@ + quoted_example(examples.last())
    }
}

/// The style reference section: empty without examples, otherwise the
/// header and the first three examples.
pub open spec fn style_section(examples: Seq<Seq<char>>) -> Seq<char> {
    if examples.len() == 0 {
        Seq::empty()
    } else if examples.len() <= MAX_STYLE_EXAMPLES {
        STYLE_HEADER@ + example_lines(examples)
    } else {
        STYLE_HEADER@ + example_lines(examples.take(MAX_STYLE_EXAMPLES as int))
    }
}

/// One quoted line per custom term.
pub open spec fn dictionary_lines(words: Seq<Seq<char>>) -> Seq<char>
    decreases words.len(),
{
    if words.len() == 0 {
        Seq::empty()
    } else {
        dictionary_lines(words.drop_last()) + DICTIONARY_ITEM_OPEN@ + words.last() + DICTIONARY_ITEM_CLOSE@
    }
}

/// The custom-terms section: empty without terms.
pub open spec fn dictionary_section(words: Seq<Seq<char>>) -> Seq<char> {
    if words.len() == 0 {
        Seq::empty()
    } else {
        DICTIONARY_HEADER@ + dictionary_lines(words)
    }
}

/// The selected-text instruction, present when text was selected.
pub open spec fn selected_section(has_selected_text: bool) -> Seq<char> {
    if has_selected_text {
        SELECTED_TEXT_ADDON@
    } else {
        Seq::empty()
    }
}

/// The display name of a target-language code; unknown codes name themselves.
pub open spec fn language_name(code: Seq<char>) -> Seq<char> {
    if code == "en"@ {
        "English"@
    } else if code == "zh"@ {
        "Chinese (中文)"@
    } else if code == "ja"@ {
        "Japanese (日本語)"@
    } else if code == "ko"@ {
        "Korean (한국어)"@
    } else if code == "fr"@ {
        "French (Français)"@
    } else if code == "de"@ {
        "German (Deutsch)"@
    } else if code == "es"@ {
        "Spanish (Español)"@
    } else if code == "pt"@ {
        "Portuguese (Português)"@
    } else if code == "ru"@ {
        "Russian (Русский)"@
    } else if code == "ar"@ {
        "Arabic (العربية)"@
    } else if code == "hi"@ {
        "Hindi (हिन्दी)"@
    } else if code == "th"@ {
        "Thai (ไทย)"@
    } else if code == "vi"@ {
        "Vietnamese (Tiếng Việt)"@
    } else if code == "it"@ {
        "Italian (Italiano)"@
    } else if code == "nl"@ {
        "Dutch (Nederlands)"@
    } else if code == "tr"@ {
        "Turkish (Türkçe)"@
    } else if code == "pl"@ {
        "Polish (Polski)"@
    } else if code == "uk"@ {
        "Ukrainian (Українська)"@
    } else if code == "id"@ {
        "Indonesian (Bahasa Indonesia)"@
    } else if code == "ms"@ {
        "Malay (Bahasa Melayu)"@
    } else {
        code
    }
}

/// The translation instruction: present when translation is enabled and the
/// target language, trimmed, is not empty; worded for selected text or for
/// dictated text.
pub open spec fn translation_section(
    translate_enabled: bool,
    target_lang: Seq<char>,
    has_selected_text: bool,
) -> Seq<char> {
    let code = trim(target_lang);
    if translate_enabled && code.len() > 0 {
        if has_selected_text {
            TRANSLATE_SELECTED_OPEN@ + language_name(code) + TRANSLATE_CLOSE@
        } else {
            TRANSLATE_CLEANED_OPEN@ + language_name(code) + TRANSLATE_CLOSE@
        }
    } else {
        Seq::empty()
    }
}

/// The full system prompt, section by section.
pub open spec fn system_prompt(
    app_type: AppType,
    dictionary: Seq<Seq<char>>,
    translate_enabled: bool,
    target_lang: Seq<char>,
    has_selected_text: bool,
    style_examples: Seq<Seq<char>>,
) -> Seq<char> {
    BASE_PROMPT@ + app_addon(app_type) + style_section(style_examples) + dictionary_section(
        dictionary,
    ) + selected_section(has_selected_text) + translation_section(
        translate_enabled,
        target_lang,
        has_selected_text,
    )
}

/// How many leading characters of `cs` start before byte `limit`.
fn count_chars_starting_before(cs: &[char], limit: usize) -> (k: usize)
    requires
        limit < usize::MAX - 4,
    ensures
        k == chars_starting_before(cs@, limit as int),
{
    let n = cs.len();
    let mut off: usize = 0;
    let mut i: usize = 0;
    assert(cs@.skip(0) =~= cs@);
    while i < n && off < limit
        invariant
            n == cs@.len(),
            i <= n,
            off < limit + 4,
            limit < usize::MAX - 4,
            chars_starting_before(cs@, limit as int) == i + chars_starting_before(
                cs@.skip(i as int),
                limit - off,
            ),
        decreases n - i,
    {
        let w = char_width_of(cs[i]);
        proof {
            assert(cs@.skip(i as int)[0] == cs@[i as int]);
            assert(cs@.skip(i as int).drop_first() =~= cs@.skip(i + 1));
        }
        off = off + w;
        i = i + 1;
    }
    assert(cs@.skip(i as int).len() == 0 || limit - off <= 0);
    i
}

/// A style example as it is quoted in the prompt.
pub fn quote_example(example: &str) -> (q: Vec<char>)
    ensures
        q@ == quoted_example(example@),
{
    let cs = chars_of(example);
    if utf8_len_exceeds(&cs, STYLE_EXAMPLE_BYTE_LIMIT) {
        let cut = count_chars_starting_before(&cs, STYLE_EXAMPLE_BYTE_LIMIT);
        proof {
            lemma_chars_starting_before_bound(cs@, STYLE_EXAMPLE_BYTE_LIMIT as int);
        }
        let mut q: Vec<char> = Vec::new();
        let mut i: usize = 0;
        while i < cut
            invariant
                cut <= cs@.len(),
                i <= cut,
                q@ == cs@.take(i as int),
            decreases cut - i,
        {
            q.push(cs[i]);
            i = i + 1;
            assert(q@ =~= cs@.take(i as int));
        }
        q.push('\u{2026}');
        q
    } else {
        cs
    }
}

/// Counting characters never runs past the end.
pub proof fn lemma_chars_starting_before_bound(e: Seq<char>, limit: int)
    ensures
        chars_starting_before(e, limit) <= e.len(),
    decreases e.len(),
{
    if e.len() > 0 && limit > 0 {
        lemma_chars_starting_before_bound(e.drop_first(), limit - char_width(e[0]));
    }
}

/// The display name for a trimmed target-language code.
pub fn language_name_of(code: &[char]) -> (name: Vec<char>)
    ensures
        name@ == language_name(code@),
{
    if chars_eq_str(code, "en") {
        chars_of("English")
    } else if chars_eq_str(code, "zh") {
        chars_of("Chinese (中文)")
    } else if chars_eq_str(code, "ja") {
        chars_of("Japanese (日本語)")
    } else if chars_eq_str(code, "ko") {
        chars_of("Korean (한국어)")
    } else if chars_eq_str(code, "fr") {
        chars_of("French (Français)")
    } else if chars_eq_str(code, "de") {
        chars_of("German (Deutsch)")
    } else if chars_eq_str(code, "es") {
        chars_of("Spanish (Español)")
    } else if chars_eq_str(code, "pt") {
        chars_of("Portuguese (Português)")
    } else if chars_eq_str(code, "ru") {
        chars_of("Russian (Русский)")
    } else if chars_eq_str(code, "ar") {
        chars_of("Arabic (العربية)")
    } else if chars_eq_str(code, "hi") {
        chars_of("Hindi (हिन्दी)")
    } else if chars_eq_str(code, "th") {
        chars_of("Thai (ไทย)")
    } else if chars_eq_str(code, "vi") {
        chars_of("Vietnamese (Tiếng Việt)")
    } else if chars_eq_str(code, "it") {
        chars_of("Italian (Italiano)")
    } else if chars_eq_str(code, "nl") {
        chars_of("Dutch (Nederlands)")
    } else if chars_eq_str(code, "tr") {
        chars_of("Turkish (Türkçe)")
    } else if chars_eq_str(code, "pl") {
        chars_of("Polish (Polski)")
    } else if chars_eq_str(code, "uk") {
        chars_of("Ukrainian (Українська)")
    } else if chars_eq_str(code, "id") {
        chars_of("Indonesian (Bahasa Indonesia)")
    } else if chars_eq_str(code, "ms") {
        chars_of("Malay (Bahasa Melayu)")
    } else {
        copy_chars(code)
    }
}

/// Appends the guidance for `app_type`.
fn push_app_addon(prompt: &mut String, app_type: AppType)
    ensures
        final(prompt)@ == old(prompt)@ + app_addon(app_type),
{
    match app_type {
        AppType::Email => push_str(prompt, EMAIL_ADDON),
        AppType::Chat => push_str(prompt, CHAT_ADDON),
        AppType::Code | AppType::General => {
            assert(prompt@ =~= prompt@ + Seq::<char>::empty());
        },
        AppType::Document => push_str(prompt, DOCUMENT_ADDON),
    }
}

/// The digit for example position `k` (1, 2 or 3).
fn position_digit_of(k: usize) -> (c: char)
    ensures
        c == position_digit(k as int),
{
    if k == 1 {
        '1'
    } else if k == 2 {
        '2'
    } else {
        '3'
    }
}

/// Appends the style reference section.
fn push_style_section(prompt: &mut String, style_examples: &[String])
    ensures
        final(prompt)@ == old(prompt)@ + style_section(string_views(style_examples@)),
{
    let ghost views = string_views(style_examples@);
    if style_examples.len() == 0 {
        assert(prompt@ =~= prompt@ + Seq::<char>::empty());
        return;
    }
    let ghost start = prompt@;
    push_str(prompt, STYLE_HEADER);
    let count: usize = if style_examples.len() < MAX_STYLE_EXAMPLES {
        style_examples.len()
    } else {
        MAX_STYLE_EXAMPLES
    };
    let mut i: usize = 0;
    assert(views.take(0) =~= Seq::<Seq<char>>::empty());
    while i < count
        invariant
            views == string_views(style_examples@),
            views.len() == style_examples@.len(),
            count <= views.len(),
            count <= MAX_STYLE_EXAMPLES,
            i <= count,
            prompt@ == start + STYLE_HEADER@ + example_lines(views.take(i as int)),
        decreases count - i,
    {
        push_str(prompt, EXAMPLE_LABEL);
        push_char(prompt, position_digit_of(i + 1));
        push_str(prompt, EXAMPLE_SEPARATOR);
        let q = quote_example(style_examples[i].as_str());
        push_chars(prompt, &q);
        proof {
            let t = views.take(i + 1);
            assert(t.drop_last() =~= views.take(i as int));
            assert(t.last() == style_examples@[i as int]@);
            assert(t.len() == i + 1);
        }
        i = i + 1;
        assert(prompt@ =~= start + STYLE_HEADER@ + example_lines(views.take(i as int)));
    }
    if style_examples.len() <= MAX_STYLE_EXAMPLES {
        assert(views.take(count as int) =~= views);
    }
}

/// Appends the custom-terms section.
fn push_dictionary_section(prompt: &mut String, dictionary: &[String])
    ensures
        final(prompt)@ == old(prompt)@ + dictionary_section(string_views(dictionary@)),
{
    let ghost views = string_views(dictionary@);
    if dictionary.len() == 0 {
        assert(prompt@ =~= prompt@ + Seq::<char>::empty());
        return;
    }
    let ghost start = prompt@;
    push_str(prompt, DICTIONARY_HEADER);
    let mut i: usize = 0;
    assert(views.take(0) =~= Seq::<Seq<char>>::empty());
    while i < dictionary.len()
        invariant
            views == string_views(dictionary@),
            views.len() == dictionary@.len(),
            i <= views.len(),
            prompt@ == start + DICTIONARY_HEADER@ + dictionary_lines(views.take(i as int)),
        decreases dictionary.len() - i,
    {
        push_str(prompt, DICTIONARY_ITEM_OPEN);
        push_str(prompt, dictionary[i].as_str());
        push_str(prompt, DICTIONARY_ITEM_CLOSE);
        proof {
            let t = views.take(i + 1);
            assert(t.drop_last() =~= views.take(i as int));
            assert(t.last() == dictionary@[i as int]@);
        }
        i = i + 1;
        assert(prompt@ =~= start + DICTIONARY_HEADER@ + dictionary_lines(views.take(i as int)));
    }
    assert(views.take(views.len() as int) =~= views);
}

/// Appends the translation instruction, if any.
fn push_translation_section(
    prompt: &mut String,
    translate_enabled: bool,
    target_lang: &str,
    has_selected_text: bool,
)
    ensures
        final(prompt)@ == old(prompt)@ + translation_section(
            translate_enabled,
            target_lang@,
            has_selected_text,
        ),
{
    let raw = chars_of(target_lang);
    let code = trim_chars(&raw);
    if translate_enabled && code.len() > 0 {
        let name = language_name_of(&code);
        if has_selected_text {
            push_str(prompt, TRANSLATE_SELECTED_OPEN);
        } else {
            push_str(prompt, TRANSLATE_CLEANED_OPEN);
        }
        push_chars(prompt, &name);
        push_str(prompt, TRANSLATE_CLOSE);
    } else {
        assert(prompt@ =~= prompt@ + Seq::<char>::empty());
    }
}

/// Builds the system prompt for polishing dictated text.
///
/// The prompt is the base instructions, then the guidance for `app_type`, up
/// to three of `style_examples` (each cut to about 200 bytes), the custom
/// `dictionary` terms, the selected-text instruction when
/// `has_selected_text`, and the translation instruction when
/// `translate_enabled` and `target_lang` is not blank.
pub fn build_system_prompt(
    app_type: AppType,
    dictionary: &[String],
    translate_enabled: bool,
    target_lang: &str,
    has_selected_text: bool,
    style_examples: &[String],
) -> (prompt: String)
    ensures
        prompt@ == system_prompt(
            app_type,
            string_views(dictionary@),
            translate_enabled,
            target_lang@,
            has_selected_text,
            string_views(style_examples@),
        ),
{
    let mut prompt = String::new();
    push_str(&mut prompt, BASE_PROMPT);
    push_app_addon(&mut prompt, app_type);
    push_style_section(&mut prompt, style_examples);
    push_dictionary_section(&mut prompt, dictionary);
    if has_selected_text {
        push_str(&mut prompt, SELECTED_TEXT_ADDON);
    }
    push_translation_section(&mut prompt, translate_enabled, target_lang, has_selected_text);
    prompt
}

/// Every prompt starts with the base instructions.
pub proof fn lemma_prompt_starts_with_base(
    app_type: AppType,
    dictionary: Seq<Seq<char>>,
    translate_enabled: bool,
    target_lang: Seq<char>,
    has_selected_text: bool,
    style_examples: Seq<Seq<char>>,
)
    ensures
        system_prompt(
            app_type,
            dictionary,
            translate_enabled,
            target_lang,
            has_selected_text,
            style_examples,
        ).take(BASE_PROMPT@.len() as int) == BASE_PROMPT@,
{
    let p = system_prompt(
        app_type,
        dictionary,
        translate_enabled,
        target_lang,
        has_selected_text,
        style_examples,
    );
    assert(p.take(BASE_PROMPT@.len() as int) =~= BASE_PROMPT@);
}

/// Only the first three style examples are quoted.
pub proof fn lemma_style_examples_capped_at_three(
    app_type: AppType,
    dictionary: Seq<Seq<char>>,
    translate_enabled: bool,
    target_lang: Seq<char>,
    has_selected_text: bool,
    style_examples: Seq<Seq<char>>,
)
    requires
        style_examples.len() > MAX_STYLE_EXAMPLES,
    ensures
        system_prompt(
            app_type,
            dictionary,
            translate_enabled,
            target_lang,
            has_selected_text,
            style_examples,
        ) == system_prompt(
            app_type,
            dictionary,
            translate_enabled,
            target_lang,
            has_selected_text,
            style_examples.take(MAX_STYLE_EXAMPLES as int),
        ),
{
    assert(style_examples.take(MAX_STYLE_EXAMPLES as int).len() == MAX_STYLE_EXAMPLES);
}

/// There is no translation instruction unless translation is enabled and
/// the target language is not blank.
pub proof fn lemma_no_translation_unless_requested(
    translate_enabled: bool,
    target_lang: Seq<char>,
    has_selected_text: bool,
)
    requires
        !translate_enabled || trim(target_lang).len() == 0,
    ensures
        translation_section(translate_enabled, target_lang, has_selected_text) == Seq::<char>::empty(),
{
}

/// With selected text and translation, the selected-text instruction comes
/// right before the translation instruction, which ends the prompt.
pub proof fn lemma_selected_text_precedes_translation(
    app_type: AppType,
    dictionary: Seq<Seq<char>>,
    target_lang: Seq<char>,
    style_examples: Seq<Seq<char>>,
)
    requires
        trim(target_lang).len() > 0,
    ensures
        system_prompt(app_type, dictionary, true, target_lang, true, style_examples) == BASE_PROMPT@
            + app_addon(app_type) + style_section(style_examples) + dictionary_section(dictionary)
            + SELECTED_TEXT_ADDON@ + TRANSLATE_SELECTED_OPEN@ + language_name(trim(target_lang))
            + TRANSLATE_CLOSE@,
{
    assert(system_prompt(app_type, dictionary, true, target_lang, true, style_examples) =~= BASE_PROMPT@
        + app_addon(app_type) + style_section(style_examples) + dictionary_section(dictionary)
        + SELECTED_TEXT_ADDON@ + TRANSLATE_SELECTED_OPEN@ + language_name(trim(target_lang))
        + TRANSLATE_CLOSE@);
}

/// Each listed target-language code is named by its own language: `en` is
/// English, `zh` Chinese, `ja` Japanese, and so on; any other code names
/// itself.
pub proof fn lemma_language_names(other: Seq<char>)
    ensures
        language_name("en"@) == "English"@,
        language_name("zh"@) == "Chinese (中文)"@,
        language_name("ja"@) == "Japanese (日本語)"@,
        language_name("ko"@) == "Korean (한국어)"@,
        language_name("fr"@) == "French (Français)"@,
        language_name("de"@) == "German (Deutsch)"@,
        language_name("es"@) == "Spanish (Español)"@,
        language_name("pt"@) == "Portuguese (Português)"@,
        language_name("ru"@) == "Russian (Русский)"@,
        language_name("ar"@) == "Arabic (العربية)"@,
        language_name("hi"@) == "Hindi (हिन्दी)"@,
        language_name("th"@) == "Thai (ไทย)"@,
        language_name("vi"@) == "Vietnamese (Tiếng Việt)"@,
        language_name("it"@) == "Italian (Italiano)"@,
        language_name("nl"@) == "Dutch (Nederlands)"@,
        language_name("tr"@) == "Turkish (Türkçe)"@,
        language_name("pl"@) == "Polish (Polski)"@,
        language_name("uk"@) == "Ukrainian (Українська)"@,
        language_name("id"@) == "Indonesian (Bahasa Indonesia)"@,
        language_name("ms"@) == "Malay (Bahasa Melayu)"@,
        other != "en"@ && other != "zh"@ && other != "ja"@ && other != "ko"@ && other != "fr"@
            && other != "de"@ && other != "es"@ && other != "pt"@ && other != "ru"@ && other
            != "ar"@ && other != "hi"@ && other != "th"@ && other != "vi"@ && other != "it"@
            && other != "nl"@ && other != "tr"@ && other != "pl"@ && other != "uk"@ && other
            != "id"@ && other != "ms"@ ==> language_name(other) == other,
{
    reveal_strlit("en");
    assert("en"@[0] == 'e' && "en"@[1] == 'n');
    reveal_strlit("zh");
    assert("zh"@[0] == 'z' && "zh"@[1] == 'h');
    reveal_strlit("ja");
    assert("ja"@[0] == 'j' && "ja"@[1] == 'a');
    reveal_strlit("ko");
    assert("ko"@[0] == 'k' && "ko"@[1] == 'o');
    reveal_strlit("fr");
    assert("fr"@[0] == 'f' && "fr"@[1] == 'r');
    reveal_strlit("de");
    assert("de"@[0] == 'd' && "de"@[1] == 'e');
    reveal_strlit("es");
    assert("es"@[0] == 'e' && "es"@[1] == 's');
    reveal_strlit("pt");
    assert("pt"@[0] == 'p' && "pt"@[1] == 't');
    reveal_strlit("ru");
    assert("ru"@[0] == 'r' && "ru"@[1] == 'u');
    reveal_strlit("ar");
    assert("ar"@[0] == 'a' && "ar"@[1] == 'r');
    reveal_strlit("hi");
    assert("hi"@[0] == 'h' && "hi"@[1] == 'i');
    reveal_strlit("th");
    assert("th"@[0] == 't' && "th"@[1] == 'h');
    reveal_strlit("vi");
    assert("vi"@[0] == 'v' && "vi"@[1] == 'i');
    reveal_strlit("it");
    assert("it"@[0] == 'i' && "it"@[1] == 't');
    reveal_strlit("nl");
    assert("nl"@[0] == 'n' && "nl"@[1] == 'l');
    reveal_strlit("tr");
    assert("tr"@[0] == 't' && "tr"@[1] == 'r');
    reveal_strlit("pl");
    assert("pl"@[0] == 'p' && "pl"@[1] == 'l');
    reveal_strlit("uk");
    assert("uk"@[0] == 'u' && "uk"@[1] == 'k');
    reveal_strlit("id");
    assert("id"@[0] == 'i' && "id"@[1] == 'd');
    reveal_strlit("ms");
    assert("ms"@[0] == 'm' && "ms"@[1] == 's');
}

/// With translation on and a non-blank target language, the prompt ends
/// with the translation instruction naming that language: for dictated
/// text, "AFTER cleaning the text, translate the entire result into", the
/// language's name and ". Output ONLY the translated text."
pub proof fn lemma_prompt_ends_with_translation(
    app_type: AppType,
    dictionary: Seq<Seq<char>>,
    target_lang: Seq<char>,
    style_examples: Seq<Seq<char>>,
)
    requires
        trim(target_lang).len() > 0,
    ensures
        ({
            let p = system_prompt(app_type, dictionary, true, target_lang, false, style_examples);
            let tail = TRANSLATE_CLEANED_OPEN@ + language_name(trim(target_lang)) + TRANSLATE_CLOSE@;
            p.len() >= tail.len() && p.subrange(p.len() - tail.len(), p.len() as int) == tail
        }),
        trim(target_lang) == "en"@ ==> ({
            let p = system_prompt(app_type, dictionary, true, target_lang, false, style_examples);
            let tail = TRANSLATE_CLEANED_OPEN@ + "English"@ + TRANSLATE_CLOSE@;
            p.len() >= tail.len() && p.subrange(p.len() - tail.len(), p.len() as int) == tail
        }),
{
    let p = system_prompt(app_type, dictionary, true, target_lang, false, style_examples);
    let tail = TRANSLATE_CLEANED_OPEN@ + language_name(trim(target_lang)) + TRANSLATE_CLOSE@;
    let head = BASE_PROMPT@ + app_addon(app_type) + style_section(style_examples) + dictionary_section(
        dictionary,
    ) + selected_section(false);
    assert(p =~= head + tail);
    assert(p.subrange(p.len() - tail.len(), p.len() as int) =~= tail);
    lemma_language_names(trim(target_lang));
}

/// The quoted line of one custom term.
pub open spec fn quoted_term(word: Seq<char>) -> Seq<char> {
    DICTIONARY_ITEM_OPEN@ + word + DICTIONARY_ITEM_CLOSE@
}

/// Every custom term appears in the dictionary lines, quoted.
pub proof fn lemma_dictionary_lines_quote_every_term(words: Seq<Seq<char>>, i: int)
    requires
        0 <= i < words.len(),
    ensures
        exists|k: int|
            0 <= k && k + quoted_term(words[i]).len() <= dictionary_lines(words).len()
                && #[trigger] dictionary_lines(words).subrange(k, k + quoted_term(words[i]).len())
                == quoted_term(words[i]),
    decreases words.len(),
{
    let rest = words.drop_last();
    let lines = dictionary_lines(words);
    let q = quoted_term(words[i]);
    assert(lines =~= dictionary_lines(rest) + quoted_term(words.last()));
    if i == words.len() - 1 {
        let k = dictionary_lines(rest).len() as int;
        assert(lines.subrange(k, k + q.len()) =~= q);
    } else {
        lemma_dictionary_lines_quote_every_term(rest, i);
        assert(rest[i] == words[i]);
        let k = choose|k: int|
            0 <= k && k + q.len() <= dictionary_lines(rest).len()
                && #[trigger] dictionary_lines(rest).subrange(k, k + q.len()) == q;
        assert(lines.subrange(k, k + q.len()) =~= dictionary_lines(rest).subrange(k, k + q.len()));
    }
}

/// Every custom term appears in the prompt, quoted.
pub proof fn lemma_prompt_quotes_every_term(
    app_type: AppType,
    dictionary: Seq<Seq<char>>,
    translate_enabled: bool,
    target_lang: Seq<char>,
    has_selected_text: bool,
    style_examples: Seq<Seq<char>>,
    i: int,
)
    requires
        0 <= i < dictionary.len(),
    ensures
        exists|k: int|
            0 <= k && k + quoted_term(dictionary[i]).len() <= system_prompt(
                app_type,
                dictionary,
                translate_enabled,
                target_lang,
                has_selected_text,
                style_examples,
            ).len() && #[trigger] system_prompt(
                app_type,
                dictionary,
                translate_enabled,
                target_lang,
                has_selected_text,
                style_examples,
            ).subrange(k, k + quoted_term(dictionary[i]).len()) == quoted_term(dictionary[i]),
{
    let p = system_prompt(
        app_type,
        dictionary,
        translate_enabled,
        target_lang,
        has_selected_text,
        style_examples,
    );
    let q = quoted_term(dictionary[i]);
    let before = BASE_PROMPT@ + app_addon(app_type) + style_section(style_examples) + DICTIONARY_HEADER@;
    let lines = dictionary_lines(dictionary);
    let after = selected_section(has_selected_text) + translation_section(
        translate_enabled,
        target_lang,
        has_selected_text,
    );
    assert(p =~= before + lines + after);
    lemma_dictionary_lines_quote_every_term(dictionary, i);
    let k = choose|k: int|
        0 <= k && k + q.len() <= lines.len() && #[trigger] lines.subrange(k, k + q.len()) == q;
    let at = before.len() + k;
    assert(p.subrange(at, at + q.len()) =~= lines.subrange(k, k + q.len()));
}

} // verus!
