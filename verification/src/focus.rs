//! Whether a text field has focus in the frontmost application, decided from
//! what the accessibility queries answer (no answer means paste), and a
//! record of recent typing and clicking in each application, which that
//! decision does not read.
use vstd::prelude::*;
use crate::text::{chars_of, fold_code, folded_eq, folded_eq_str, str_eq};

verus! {

/// How long typing in an application counts as recent interaction, in ms.
pub const TYPING_WINDOW_MS: u64 = 30_000;
/// How long a click in an application counts as recent interaction, in ms.
pub const CLICK_WINDOW_MS: u64 = 120_000;

/// `now - then`, or 0 if `then` is later.
pub open spec fn elapsed_ms(now: u64, then: u64) -> u64 {
    if now >= then {
        (now - then) as u64
    } else {
        0
    }
}

/// The last typing and clicking seen, with the application each happened in.
/// It is only a record: no decision of this library reads it, since
/// `text_input_focused` answers "paste" whenever accessibility gives no
/// answer; `recent_interaction` is the query it offers.
pub struct ActivityLog {
    pub last_text_key_pid: i32,
    pub last_text_key_ms: u64,
    pub last_click_pid: i32,
    pub last_click_ms: u64,
}

/// Whether activity at `(pid, ms)` is recent enough for `front_pid` at `now`.
pub open spec fn recent_in(pid: i32, ms: u64, front_pid: i32, now: u64, window: u64) -> bool {
    pid == front_pid && ms > 0 && elapsed_ms(now, ms) < window
}

/// Typing in the frontmost application within 30 s, or a click in it within
/// 120 s.
pub open spec fn recent_interaction_spec(log: ActivityLog, front_pid: i32, now: u64) -> bool {
    recent_in(log.last_text_key_pid, log.last_text_key_ms, front_pid, now, TYPING_WINDOW_MS)
        || recent_in(log.last_click_pid, log.last_click_ms, front_pid, now, CLICK_WINDOW_MS)
}

impl ActivityLog {
    /// A log with nothing seen.
    pub fn new() -> (log: ActivityLog)
        ensures
            log == (ActivityLog {
                last_text_key_pid: 0,
                last_text_key_ms: 0,
                last_click_pid: 0,
                last_click_ms: 0,
            }),
    {
        ActivityLog { last_text_key_pid: 0, last_text_key_ms: 0, last_click_pid: 0, last_click_ms: 0 }
    }

    /// Records a printable key press in application `app_pid` at `now_ms`.
    pub fn record_text_key_activity(&mut self, app_pid: i32, now_ms: u64)
        ensures
            *final(self) == (ActivityLog {
                last_text_key_pid: app_pid,
                last_text_key_ms: now_ms,
                ..*old(self)
            }),
    {
        self.last_text_key_pid = app_pid;
        self.last_text_key_ms = now_ms;
    }

    /// Records a mouse click in application `app_pid` at `now_ms`.
    pub fn record_click_activity(&mut self, app_pid: i32, now_ms: u64)
        ensures
            *final(self) == (ActivityLog { last_click_pid: app_pid, last_click_ms: now_ms, ..*old(self) }),
    {
        self.last_click_pid = app_pid;
        self.last_click_ms = now_ms;
    }

    /// Whether there was typing within 30 s or a click within 120 s in
    /// application `front_pid` at `now_ms` (not used by the focus decision).
    pub fn recent_interaction(&self, front_pid: i32, now_ms: u64) -> (r: bool)
        ensures
            r == recent_interaction_spec(*self, front_pid, now_ms),
    {
        let typed = self.last_text_key_pid == front_pid && self.last_text_key_ms > 0
            && now_ms.saturating_sub(self.last_text_key_ms) < TYPING_WINDOW_MS;
        let clicked = self.last_click_pid == front_pid && self.last_click_ms > 0
            && now_ms.saturating_sub(self.last_click_ms) < CLICK_WINDOW_MS;
        typed || clicked
    }
}

/// Typing recorded in an application counts for it during the next 30 s.
pub proof fn lemma_typing_counts_for_thirty_seconds(log: ActivityLog, pid: i32, t: u64, now: u64)
    requires
        t > 0,
        now < t + TYPING_WINDOW_MS,
    ensures
        recent_interaction_spec(
            ActivityLog { last_text_key_pid: pid, last_text_key_ms: t, ..log },
            pid,
            now,
        ),
{
}

/// A click recorded in an application counts for it during the next 120 s.
pub proof fn lemma_click_counts_for_two_minutes(log: ActivityLog, pid: i32, t: u64, now: u64)
    requires
        t > 0,
        now < t + CLICK_WINDOW_MS,
    ensures
        recent_interaction_spec(ActivityLog { last_click_pid: pid, last_click_ms: t, ..log }, pid, now),
{
}

/// Activity in another application never counts.
pub proof fn lemma_other_application_ignored(log: ActivityLog, front_pid: i32, now: u64)
    requires
        log.last_text_key_pid != front_pid,
        log.last_click_pid != front_pid,
    ensures
        !recent_interaction_spec(log, front_pid, now),
{
}

/// What the accessibility role query of an element answered.
pub enum RoleProbe {
    /// The element exists but its role could not be read.
    Unreadable,
    Role(String),
}

/// What asking the frontmost application for its focused element answered.
pub enum AppFocus {
    /// No accessibility element for the application.
    NoAppElement,
    /// Accessibility is disabled for the application.
    ApiDisabled,
    /// The application reports no focused element.
    NoFocusedElement,
    /// Another accessibility error.
    OtherError,
    /// A focused element, with its role.
    Focused(RoleProbe),
}

/// The accessibility roles of text input elements.
pub open spec fn is_text_role_spec(role: Seq<char>) -> bool {
    ||| role == "AXTextField"@
    ||| role == "AXTextArea"@
    ||| role == "AXComboBox"@
    ||| role == "AXSearchField"@
    ||| role == "AXWebArea"@
}

/// Whether an accessibility role is that of a text input.
pub fn is_text_role(role: &str) -> (r: bool)
    ensures
        r == is_text_role_spec(role@),
{
    str_eq(role, "AXTextField") || str_eq(role, "AXTextArea") || str_eq(role, "AXComboBox")
        || str_eq(role, "AXSearchField") || str_eq(role, "AXWebArea")
}

/// A focused element counts as a text input unless its role is readable
/// and not a text role.
pub open spec fn role_verdict(p: RoleProbe) -> bool {
    match p {
        RoleProbe::Unreadable => true,
        RoleProbe::Role(r) => is_text_role_spec(r@),
    }
}

fn role_verdict_exec(p: &RoleProbe) -> (r: bool)
    ensures
        r == role_verdict(*p),
{
    match p {
        RoleProbe::Unreadable => true,
        RoleProbe::Role(r) => is_text_role(r.as_str()),
    }
}

/// Whether to paste into the frontmost application: never when this
/// application is frontmost; by the role of the focused element when one is
/// found and its role is read; and yes (paste) whenever accessibility gives
/// no answer. When the application reports no focused element, the focused
/// window's element is asked, then the system-wide focused element (if it
/// belongs to the application); if neither is found, the answer is yes.
pub open spec fn text_input_focused_spec(
    other_app_frontmost: bool,
    app_level: AppFocus,
    window_level: Option<RoleProbe>,
    system_level: Option<RoleProbe>,
) -> bool {
    if !other_app_frontmost {
        false
    } else {
        match app_level {
            AppFocus::NoAppElement => true,
            AppFocus::ApiDisabled => true,
            AppFocus::OtherError => true,
            AppFocus::Focused(p) => role_verdict(p),
            AppFocus::NoFocusedElement => match window_level {
                Some(p) => role_verdict(p),
                None => match system_level {
                    Some(p) => role_verdict(p),
                    None => true,
                },
            },
        }
    }
}

/// Decides whether a text input has focus, from the answers of the queries.
/// `window_level` and `system_level` are only consulted when the application
/// reports no focused element; `None` means that query found no element.
pub fn text_input_focused(
    other_app_frontmost: bool,
    app_level: &AppFocus,
    window_level: &Option<RoleProbe>,
    system_level: &Option<RoleProbe>,
) -> (r: bool)
    ensures
        r == text_input_focused_spec(
            other_app_frontmost,
            *app_level,
            *window_level,
            *system_level,
        ),
{
    if !other_app_frontmost {
        return false;
    }
    match app_level {
        AppFocus::NoAppElement => true,
        AppFocus::ApiDisabled => true,
        AppFocus::OtherError => true,
        AppFocus::Focused(p) => role_verdict_exec(p),
        AppFocus::NoFocusedElement => match window_level {
            Some(p) => role_verdict_exec(p),
            None => match system_level {
                Some(p) => role_verdict_exec(p),
                None => true,
            },
        },
    }
}

/// When another application is frontmost, every accessibility failure means
/// paste: no application element, accessibility disabled, another error, a
/// focused element whose role cannot be read, or no focused element found at
/// any level.
pub proof fn lemma_no_accessibility_answer_means_paste(
    app_level: AppFocus,
    window_level: Option<RoleProbe>,
    system_level: Option<RoleProbe>,
)
    ensures
        app_level is NoAppElement || app_level is ApiDisabled || app_level is OtherError
            || app_level == AppFocus::Focused(RoleProbe::Unreadable) ==> text_input_focused_spec(
            true,
            app_level,
            window_level,
            system_level,
        ),
        app_level is NoFocusedElement && window_level is None && system_level is None
            ==> text_input_focused_spec(true, app_level, window_level, system_level),
{
}

/// When another application is frontmost and its focused element's role is
/// read, the text is pasted exactly when that role is one of the text input
/// roles: AXTextField, AXTextArea, AXComboBox, AXSearchField or AXWebArea.
pub proof fn lemma_text_roles_paste(
    role: String,
    window_level: Option<RoleProbe>,
    system_level: Option<RoleProbe>,
)
    ensures
        text_input_focused_spec(true, AppFocus::Focused(RoleProbe::Role(role)), window_level, system_level)
            <==> (role@ == "AXTextField"@ || role@ == "AXTextArea"@ || role@ == "AXComboBox"@
            || role@ == "AXSearchField"@ || role@ == "AXWebArea"@),
        role@ == "AXSearchField"@ ==> text_input_focused_spec(
            true,
            AppFocus::Focused(RoleProbe::Role(role)),
            window_level,
            system_level,
        ),
{
}

/// When the application reports no focused element but the focused window's
/// element (or, failing that, the system-wide one) has a readable role, the
/// same five text input roles decide.
pub proof fn lemma_fallback_roles_paste(role: String, system_level: Option<RoleProbe>)
    ensures
        text_input_focused_spec(true, AppFocus::NoFocusedElement, Some(RoleProbe::Role(role)), system_level)
            <==> (role@ == "AXTextField"@ || role@ == "AXTextArea"@ || role@ == "AXComboBox"@
            || role@ == "AXSearchField"@ || role@ == "AXWebArea"@),
        text_input_focused_spec(true, AppFocus::NoFocusedElement, None, Some(RoleProbe::Role(role)))
            <==> (role@ == "AXTextField"@ || role@ == "AXTextArea"@ || role@ == "AXComboBox"@
            || role@ == "AXSearchField"@ || role@ == "AXWebArea"@),
{
}

/// This application being frontmost always means no paste.
pub proof fn lemma_own_window_never_pastes(
    app_level: AppFocus,
    window_level: Option<RoleProbe>,
    system_level: Option<RoleProbe>,
)
    ensures
        !text_input_focused_spec(false, app_level, window_level, system_level),
{
}

/// `hay`, lowercased, contains the lowercase ASCII `needle`.
pub open spec fn contains_folded(hay: Seq<char>, needle: Seq<char>) -> bool {
    exists|i: int| 0 <= i <= hay.len() - needle.len() && folded_eq(#[trigger] hay.subrange(i, i + needle.len()), needle)
}

/// Whether `hay`, lowercased, contains `needle`.
pub fn contains_folded_exec(hay: &[char], needle: &str) -> (r: bool)
    ensures
        r == contains_folded(hay@, needle@),
{
    let n = needle.unicode_len();
    if n > hay.len() {
        proof {
            assert forall|i: int| 0 <= i <= hay@.len() - needle@.len() implies !folded_eq(
                #[trigger] hay@.subrange(i, i + needle@.len()),
                needle@,
            ) by {}
        }
        return false;
    }
    let mut i: usize = 0;
    while i <= hay.len() - n
        invariant
            n == needle@.len(),
            n <= hay@.len(),
            i <= hay@.len() - n + 1,
            forall|k: int| 0 <= k < i ==> !folded_eq(#[trigger] hay@.subrange(k, k + n), needle@),
        decreases hay.len() - n + 1 - i,
    {
        let mut window: Vec<char> = Vec::new();
        let mut j: usize = 0;
        while j < n
            invariant
                n == needle@.len(),
                i + n <= hay.len(),
                j <= n,
                window@ == hay@.subrange(i as int, i + j),
            decreases n - j,
        {
            window.push(hay[i + j]);
            j = j + 1;
            assert(window@ =~= hay@.subrange(i as int, i + j));
        }
        if folded_eq_str(&window, needle) {
            return true;
        }
        i = i + 1;
    }
    false
}

/// Whether a Windows control class (compared case-insensitively) is an
/// edit control: it contains `edit`, `richedit` or `scintilla`.
pub open spec fn is_edit_class_spec(class: Seq<char>) -> bool {
    contains_folded(class, "edit"@) || contains_folded(class, "richedit"@) || contains_folded(
        class,
        "scintilla"@,
    )
}

/// Whether a Windows control class is an edit control.
pub fn is_edit_class(class: &str) -> (r: bool)
    ensures
        r == is_edit_class_spec(class@),
{
    let cs = chars_of(class);
    contains_folded_exec(&cs, "edit") || contains_folded_exec(&cs, "richedit")
        || contains_folded_exec(&cs, "scintilla")
}

/// On Windows: a text caret means a text field; otherwise the focused
/// control's class decides; no thread information or no focused control
/// means none.
pub fn windows_text_input_focused(thread_info: bool, has_caret: bool, focus_class: Option<&str>) -> (r:
    bool)
    ensures
        r == (thread_info && (has_caret || (focus_class matches Some(c) && c@.len() > 0
            && is_edit_class_spec(c@)))),
{
    if !thread_info {
        return false;
    }
    if has_caret {
        return true;
    }
    match focus_class {
        Some(c) => !c.is_empty() && is_edit_class(c),
        None => false,
    }
}

} // verus!
