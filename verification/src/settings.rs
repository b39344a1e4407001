//! Settings checks: the cloud API base URL and custom dictionary entries.
use vstd::prelude::*;
use crate::text::{chars_of, string_from_chars, trim, trim_chars, utf8_len, utf8_len_exceeds};

verus! {

/// The cloud API used when no override is set.
pub const DEFAULT_API_BASE_URL: &'static str = "https://www.opentypeless.com";
/// Environment variable that overrides the cloud API base URL.
pub const API_BASE_URL_ENV: &'static str = "API_BASE_URL";
/// Longest custom term or pronunciation, in UTF-8 bytes.
pub const MAX_ENTRY_BYTES: usize = 100;

/// The cloud API base URL: the environment's value when it has one (even an
/// empty one), otherwise the default.
pub fn resolve_api_base_url(env_value: Option<String>) -> (url: String)
    ensures
        url@ == match env_value {
            Some(v) => v@,
            None => DEFAULT_API_BASE_URL@,
        },
{
    match env_value {
        Some(v) => v,
        None => DEFAULT_API_BASE_URL.to_owned(),
    }
}

pub const EMPTY_WORD_MESSAGE: &'static str = "Word cannot be empty";
pub const LONG_WORD_MESSAGE: &'static str = "Word is too long (max 100 characters)";
pub const LONG_PRONUNCIATION_MESSAGE: &'static str = "Pronunciation is too long (max 100 characters)";

/// Checks a new dictionary entry: the trimmed word must be non-empty and at
/// most 100 bytes, the pronunciation (if any) at most 100 bytes. Gives the
/// trimmed word.
pub open spec fn dictionary_entry_spec(word: Seq<char>, pronunciation: Option<Seq<char>>) -> Result<
    Seq<char>,
    Seq<char>,
> {
    if trim(word).len() == 0 {
        Err(EMPTY_WORD_MESSAGE@)
    } else if utf8_len(trim(word)) > MAX_ENTRY_BYTES {
        Err(LONG_WORD_MESSAGE@)
    } else if pronunciation matches Some(p) && utf8_len(p) > MAX_ENTRY_BYTES {
        Err(LONG_PRONUNCIATION_MESSAGE@)
    } else {
        Ok(trim(word))
    }
}

/// Checks a new dictionary entry and gives the word to store.
pub fn validate_dictionary_entry(word: &str, pronunciation: Option<&str>) -> (r: Result<
    String,
    String,
>)
    ensures
        crate::connection::result_view(r) == dictionary_entry_spec(
            word@,
            crate::model::opt_str_view(pronunciation),
        ),
{
    let cs = chars_of(word);
    let t = trim_chars(&cs);
    if t.len() == 0 {
        return Err(EMPTY_WORD_MESSAGE.to_owned());
    }
    if utf8_len_exceeds(&t, MAX_ENTRY_BYTES) {
        return Err(LONG_WORD_MESSAGE.to_owned());
    }
    match pronunciation {
        Some(p) => {
            let pc = chars_of(p);
            if utf8_len_exceeds(&pc, MAX_ENTRY_BYTES) {
                return Err(LONG_PRONUNCIATION_MESSAGE.to_owned());
            }
        },
        None => {},
    }
    Ok(string_from_chars(&t))
}

/// Whether a saved window position and size is worth restoring: not parked
/// off-screen (as a minimized window reports) and at least 720 by 480.
pub fn window_state_restorable(x: i32, y: i32, width: u32, height: u32) -> (ok: bool)
    ensures
        ok == (x > -1000 && y > -1000 && width >= 720 && height >= 480),
{
    x > -1000 && y > -1000 && width >= 720 && height >= 480
}

} // verus!
