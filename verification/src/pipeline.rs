//! The recording pipeline: its states, the session state machine that
//! start, stop, cancel and translate move through, and the decisions taken
//! along the way (what a hotkey press does, whether the language model is
//! needed, where the text is sent, which endpoints are warmed up).
use vstd::prelude::*;
use crate::hotkey::{parse_hotkey, parse_hotkey_spec, Shortcut};
use crate::text::{chars_of, push_char, push_str, str_eq, string_from_chars, trim, trim_chars};

verus! {

/// Where the pipeline is in one dictation.
#[derive(Debug, Clone, Copy, PartialEq, Eq, Structural)]
pub enum PipelineState {
    Idle,
    Recording,
    Transcribing,
    Polishing,
    Outputting,
}

/// The byte that stands for a state.
pub open spec fn state_code(s: PipelineState) -> u8 {
    match s {
        PipelineState::Idle => 0,
        PipelineState::Recording => 1,
        PipelineState::Transcribing => 2,
        PipelineState::Polishing => 3,
        PipelineState::Outputting => 4,
    }
}

/// The state a byte stands for; unknown bytes stand for `Idle`.
pub open spec fn state_of_code(v: u8) -> PipelineState {
    if v == 1 {
        PipelineState::Recording
    } else if v == 2 {
        PipelineState::Transcribing
    } else if v == 3 {
        PipelineState::Polishing
    } else if v == 4 {
        PipelineState::Outputting
    } else {
        PipelineState::Idle
    }
}

impl PipelineState {
    /// The byte that stands for this state.
    pub fn as_u8(self) -> (v: u8)
        ensures
            v == state_code(self),
    {
        match self {
            PipelineState::Idle => 0,
            PipelineState::Recording => 1,
            PipelineState::Transcribing => 2,
            PipelineState::Polishing => 3,
            PipelineState::Outputting => 4,
        }
    }

    /// The state that `v` stands for; unknown bytes give `Idle`.
    pub fn from_u8(v: u8) -> (s: PipelineState)
        ensures
            s == state_of_code(v),
    {
        if v == 1 {
            PipelineState::Recording
        } else if v == 2 {
            PipelineState::Transcribing
        } else if v == 3 {
            PipelineState::Polishing
        } else if v == 4 {
            PipelineState::Outputting
        } else {
            PipelineState::Idle
        }
    }
}

/// Decoding the byte of a state gives the state back.
pub proof fn lemma_state_code_round_trip(s: PipelineState)
    ensures
        state_of_code(state_code(s)) == s,
{
}

/// Every byte up to 4 is the byte of the state it decodes to.
pub proof fn lemma_code_state_round_trip(v: u8)
    requires
        v <= 4,
    ensures
        state_code(state_of_code(v)) == v,
{
}

/// Bytes above 4 decode to `Idle`.
pub proof fn lemma_unknown_code_is_idle(v: u8)
    requires
        v > 4,
    ensures
        state_of_code(v) == PipelineState::Idle,
{
}

// ─── Emoji filtering ───
/// Characters the language model should not emit: the supplementary emoji
/// plane, Miscellaneous Symbols, Dingbats, the emoji variation selector and
/// the combining keycap.
pub open spec fn is_emoji(c: char) -> bool {
    let u = c as u32;
    ||| 0x1F000 <= u <= 0x1FFFF
    ||| 0x2600 <= u <= 0x26FF
    ||| 0x2700 <= u <= 0x27BF
    ||| u == 0xFE0F
    ||| u == 0x20E3
}

/// `s` with every emoji character removed, the rest kept in order.
pub open spec fn without_emoji(s: Seq<char>) -> Seq<char>
    decreases s.len(),
{
    if s.len() == 0 {
        Seq::empty()
    } else {
        let rest = without_emoji(s.drop_last());
        if is_emoji(s.last()) {
            rest
        } else {
            rest.push(s.last())
        }
    }
}

/// Whether `c` is an emoji character.
pub fn is_emoji_char(c: char) -> (r: bool)
    ensures
        r == is_emoji(c),
{
    let u = c as u32;
    (0x1F000 <= u && u <= 0x1FFFF) || (0x2600 <= u && u <= 0x26FF) || (0x2700 <= u && u <= 0x27BF)
        || u == 0xFE0F || u == 0x20E3
}

/// Removes emoji characters from `text`: the language model sometimes adds
/// them despite being told not to.
pub fn strip_emoji(text: &str) -> (r: String)
    ensures
        r@ == without_emoji(text@),
{
    let cs = chars_of(text);
    let mut r = String::new();
    let mut i: usize = 0;
    assert(cs@.take(0) =~= Seq::<char>::empty());
    while i < cs.len()
        invariant
            i <= cs@.len(),
            r@ == without_emoji(cs@.take(i as int)),
        decreases cs.len() - i,
    {
        let c = cs[i];
        proof {
            assert(cs@.take(i + 1).drop_last() =~= cs@.take(i as int));
            assert(cs@.take(i + 1).last() == c);
        }
        if !is_emoji_char(c) {
            push_char(&mut r, c);
        }
        i = i + 1;
    }
    assert(cs@.take(cs@.len() as int) =~= cs@);
    r
}

/// No emoji is left after stripping.
pub proof fn lemma_without_emoji_has_none(s: Seq<char>)
    ensures
        forall|i: int| 0 <= i < without_emoji(s).len() ==> !is_emoji(#[trigger] without_emoji(s)[i]),
    decreases s.len(),
{
    if s.len() > 0 {
        lemma_without_emoji_has_none(s.drop_last());
        let rest = without_emoji(s.drop_last());
        if !is_emoji(s.last()) {
            assert forall|i: int| 0 <= i < rest.push(s.last()).len() implies !is_emoji(
                #[trigger] rest.push(s.last())[i],
            ) by {
                if i < rest.len() {
                    assert(rest.push(s.last())[i] == rest[i]);
                }
            }
        }
    }
}

/// Text without emoji is left as it is.
pub proof fn lemma_without_emoji_keeps_plain_text(s: Seq<char>)
    requires
        forall|i: int| 0 <= i < s.len() ==> !is_emoji(#[trigger] s[i]),
    ensures
        without_emoji(s) == s,
    decreases s.len(),
{
    if s.len() > 0 {
        let t = s.drop_last();
        assert forall|i: int| 0 <= i < t.len() implies !is_emoji(#[trigger] t[i]) by {
            assert(t[i] == s[i]);
        }
        lemma_without_emoji_keeps_plain_text(t);
        assert(t.push(s.last()) =~= s);
    }
}

/// Stripping twice strips no more than once.
pub proof fn lemma_without_emoji_idempotent(s: Seq<char>)
    ensures
        without_emoji(without_emoji(s)) == without_emoji(s),
{
    lemma_without_emoji_has_none(s);
    lemma_without_emoji_keeps_plain_text(without_emoji(s));
}

// ─── The session state machine ───
/// What the session state machine holds, as plain values.
pub struct SessionView {
    pub state: PipelineState,
    pub cancelled: bool,
    pub translate_session: bool,
    pub accumulated: Seq<char>,
    pub last_raw: Seq<char>,
}

/// The pipeline's own state for one dictation after another: where it is,
/// whether the running dictation was cancelled, whether it is a translate
/// session, the transcript so far and the last finished raw transcript.
pub struct PipelineSession {
    pub state: PipelineState,
    pub cancelled: bool,
    pub translate_session: bool,
    pub accumulated: String,
    pub last_raw_text: String,
}

impl View for PipelineSession {
    type V = SessionView;

    open spec fn view(&self) -> SessionView {
        SessionView {
            state: self.state,
            cancelled: self.cancelled,
            translate_session: self.translate_session,
            accumulated: self.accumulated@,
            last_raw: self.last_raw_text@,
        }
    }
}

/// What a finished transcription leaves for output.
pub enum TranscriptionOutcome {
    /// The dictation was cancelled: nothing is output.
    Cancelled,
    /// Nothing was heard: the pipeline went back to idle.
    Empty,
    /// The trimmed raw transcript, and whether the dictation was a translate session.
    Ready { text: String, translate: bool },
}

/// `TranscriptionOutcome` as plain values.
pub enum OutcomeView {
    Cancelled,
    Empty,
    Ready { text: Seq<char>, translate: bool },
}

impl View for TranscriptionOutcome {
    type V = OutcomeView;

    open spec fn view(&self) -> OutcomeView {
        match self {
            TranscriptionOutcome::Cancelled => OutcomeView::Cancelled,
            TranscriptionOutcome::Empty => OutcomeView::Empty,
            TranscriptionOutcome::Ready { text, translate } => OutcomeView::Ready {
                text: text@,
                translate: *translate,
            },
        }
    }
}

/// The session before any dictation.
pub open spec fn initial_session() -> SessionView {
    SessionView {
        state: PipelineState::Idle,
        cancelled: false,
        translate_session: false,
        accumulated: Seq::empty(),
        last_raw: Seq::empty(),
    }
}

/// Starting to record: only from `Idle`; it clears the cancel flag and the
/// transcript. The flag says whether it happened.
pub open spec fn begin_recording_step(v: SessionView) -> (SessionView, bool) {
    if v.state == PipelineState::Idle {
        (
            SessionView {
                state: PipelineState::Recording,
                cancelled: false,
                accumulated: Seq::empty(),
                ..v
            },
            true,
        )
    } else {
        (v, false)
    }
}

/// Stopping the recording: only from `Recording`, into `Transcribing`.
pub open spec fn begin_transcribing_step(v: SessionView) -> (SessionView, bool) {
    if v.state == PipelineState::Recording {
        (SessionView { state: PipelineState::Transcribing, ..v }, true)
    } else {
        (v, false)
    }
}

/// Cancelling: from any state back to `Idle`, marking the dictation cancelled.
pub open spec fn force_idle_step(v: SessionView) -> SessionView {
    SessionView { state: PipelineState::Idle, cancelled: true, ..v }
}

/// Ending transcription reads and clears the translate-session mark on every
/// outcome, so it never carries over to the next dictation. A cancelled
/// dictation yields nothing; an empty trimmed transcript sends the pipeline
/// back to `Idle`; otherwise the trimmed transcript is kept as the last raw
/// text and handed on with the mark.
pub open spec fn finish_transcription_step(v: SessionView) -> (SessionView, OutcomeView) {
    let w = SessionView { translate_session: false, ..v };
    if v.cancelled {
        (w, OutcomeView::Cancelled)
    } else if trim(v.accumulated).len() == 0 {
        (SessionView { state: PipelineState::Idle, ..w }, OutcomeView::Empty)
    } else {
        (
            SessionView { last_raw: trim(v.accumulated), ..w },
            OutcomeView::Ready { text: trim(v.accumulated), translate: v.translate_session },
        )
    }
}

/// Moving on to a later stage of a dictation (polishing, outputting): refused
/// once the dictation was cancelled, so a cancelled dictation outputs nothing
/// and stays where the cancel left it.
pub open spec fn advance_step(v: SessionView, to: PipelineState) -> (SessionView, bool) {
    if v.cancelled {
        (v, false)
    } else {
        (SessionView { state: to, ..v }, true)
    }
}

/// What translating the last transcript needs.
pub enum TranslateLastPlan {
    /// The pipeline is busy: do nothing.
    Skip,
    /// No transcript yet.
    NoTranscript,
    /// The language model has no key.
    MissingLlmKey,
    /// Translate this text.
    Translate(String),
}

pub const NO_TRANSCRIPT_MESSAGE: &'static str = "No recent transcription to translate.";
pub const MISSING_LLM_KEY_MESSAGE: &'static str = "LLM API key is not configured. Please set it in Settings → AI Polish.";
pub const MISSING_STT_KEY_MESSAGE: &'static str = "STT API key is not configured. Please set it in Settings → Speech Recognition.";

impl PipelineSession {
    /// A session before any dictation.
    pub fn new() -> (s: PipelineSession)
        ensures
            s@ == initial_session(),
    {
        PipelineSession {
            state: PipelineState::Idle,
            cancelled: false,
            translate_session: false,
            accumulated: String::new(),
            last_raw_text: String::new(),
        }
    }

    /// The current state.
    pub fn current_state(&self) -> (s: PipelineState)
        ensures
            s == self.state,
    {
        self.state
    }

    /// Moves to `Recording` if idle; returns whether it did.
    pub fn begin_recording(&mut self) -> (started: bool)
        ensures
            (final(self)@, started) == begin_recording_step(old(self)@),
    {
        if self.state == PipelineState::Idle {
            self.state = PipelineState::Recording;
            self.cancelled = false;
            self.accumulated = String::new();
            true
        } else {
            false
        }
    }

    /// Moves from `Recording` to `Transcribing`; returns whether it did.
    pub fn begin_transcribing(&mut self) -> (stopped: bool)
        ensures
            (final(self)@, stopped) == begin_transcribing_step(old(self)@),
    {
        if self.state == PipelineState::Recording {
            self.state = PipelineState::Transcribing;
            true
        } else {
            false
        }
    }

    /// Cancels whatever is in progress and returns to `Idle`.
    pub fn force_idle(&mut self)
        ensures
            final(self)@ == force_idle_step(old(self)@),
    {
        self.cancelled = true;
        self.state = PipelineState::Idle;
    }

    /// Moves to `new_state`.
    pub fn set_state(&mut self, new_state: PipelineState)
        ensures
            final(self)@ == (SessionView { state: new_state, ..old(self)@ }),
    {
        self.state = new_state;
    }

    /// Adds a final transcript segment received while recording, followed by a space.
    pub fn push_final_segment(&mut self, text: &str)
        ensures
            final(self)@ == (SessionView {
                accumulated: (old(self)@.accumulated + text@).push(' '),
                ..old(self)@
            }),
    {
        push_str(&mut self.accumulated, text);
        push_char(&mut self.accumulated, ' ');
    }

    /// Adds the transcript the recognizer returns when it is closed.
    pub fn push_closing_segment(&mut self, text: &str)
        ensures
            final(self)@ == (SessionView { accumulated: old(self)@.accumulated + text@, ..old(self)@ }),
    {
        push_str(&mut self.accumulated, text);
    }

    /// A copy of the transcript so far.
    pub fn transcript_so_far(&self) -> (t: String)
        ensures
            t@ == self.accumulated@,
    {
        self.accumulated.clone()
    }

    /// Marks the next dictation as a translate session.
    pub fn mark_translate_session(&mut self)
        ensures
            final(self)@ == (SessionView { translate_session: true, ..old(self)@ }),
    {
        self.translate_session = true;
    }

    /// Reads and clears the translate-session mark.
    pub fn take_translate_session(&mut self) -> (was: bool)
        ensures
            was == old(self).translate_session,
            final(self)@ == (SessionView { translate_session: false, ..old(self)@ }),
    {
        let was = self.translate_session;
        self.translate_session = false;
        was
    }

    /// Moves to `to` unless the dictation was cancelled; returns whether it did.
    pub fn advance(&mut self, to: PipelineState) -> (moved: bool)
        ensures
            (final(self)@, moved) == advance_step(old(self)@, to),
    {
        if self.cancelled {
            false
        } else {
            self.state = to;
            true
        }
    }

    /// Whether a finished dictation is saved to the history: only when it
    /// was not cancelled.
    pub fn history_due(&self) -> (due: bool)
        ensures
            due == !self.cancelled,
    {
        !self.cancelled
    }

    /// Whether the running dictation was cancelled.
    pub fn is_cancelled(&self) -> (c: bool)
        ensures
            c == self.cancelled,
    {
        self.cancelled
    }

    /// Ends transcription: see `finish_transcription_step`.
    pub fn finish_transcription(&mut self) -> (out: TranscriptionOutcome)
        ensures
            (final(self)@, out@) == finish_transcription_step(old(self)@),
    {
        let translate = self.translate_session;
        self.translate_session = false;
        if self.cancelled {
            return TranscriptionOutcome::Cancelled;
        }
        let cs = chars_of(self.accumulated.as_str());
        let t = trim_chars(&cs);
        if t.len() == 0 {
            self.state = PipelineState::Idle;
            TranscriptionOutcome::Empty
        } else {
            self.last_raw_text = string_from_chars(&t);
            TranscriptionOutcome::Ready { text: string_from_chars(&t), translate }
        }
    }

    /// What translating the last transcript does, given the configured
    /// language-model provider and the key it would use (the session token
    /// for the cloud provider).
    pub fn plan_translate_last(&self, llm_provider: &str, llm_api_key: &str) -> (plan:
        TranslateLastPlan)
        ensures
            self.state != PipelineState::Idle ==> plan is Skip,
            self.state == PipelineState::Idle && self.last_raw_text@.len() == 0 ==> plan is NoTranscript,
            self.state == PipelineState::Idle && self.last_raw_text@.len() > 0 && llm_api_key@.len()
                == 0 && llm_provider@ != "cloud"@ ==> plan is MissingLlmKey,
            self.state == PipelineState::Idle && self.last_raw_text@.len() > 0 && (llm_api_key@.len()
                > 0 || llm_provider@ == "cloud"@) ==> (plan matches TranslateLastPlan::Translate(t)
                && t@ == self.last_raw_text@),
    {
        if self.state != PipelineState::Idle {
            return TranslateLastPlan::Skip;
        }
        if self.last_raw_text.as_str().is_empty() {
            return TranslateLastPlan::NoTranscript;
        }
        if llm_api_key.is_empty() && !str_eq(llm_provider, "cloud") {
            return TranslateLastPlan::MissingLlmKey;
        }
        TranslateLastPlan::Translate(self.last_raw_text.clone())
    }
}

/// Every recording starts with an empty transcript, whatever came before
/// (a finished dictation or a cancelled one): a started recording is
/// `Recording`, not cancelled, has no transcript yet, and keeps the last
/// finished transcript and the translate mark.
pub proof fn lemma_start_clears_transcript(v: SessionView)
    ensures
        begin_recording_step(v).1 ==> begin_recording_step(v).0.accumulated.len() == 0,
        begin_recording_step(v).1 ==> begin_recording_step(v).0.state == PipelineState::Recording,
        begin_recording_step(v).1 ==> !begin_recording_step(v).0.cancelled,
        begin_recording_step(v).0.last_raw == v.last_raw,
        begin_recording_step(v).0.translate_session == v.translate_session,
{
}

/// A dictation hands on exactly its own words: whatever an earlier
/// dictation left, starting, adding one final segment, stopping and
/// finishing gives that segment, trimmed.
pub proof fn lemma_dictation_hands_on_its_own_text(v: SessionView, text: Seq<char>)
    requires
        v.state == PipelineState::Idle,
        trim(text.push(' ')).len() > 0,
    ensures
        ({
            let started = begin_recording_step(v).0;
            let with_text = SessionView { accumulated: (started.accumulated + text).push(' '), ..started };
            let stopped = begin_transcribing_step(with_text).0;
            finish_transcription_step(stopped).1 matches OutcomeView::Ready { text: t, .. } && t
                == trim(text.push(' '))
        }),
{
    assert(Seq::<char>::empty() + text =~= text);
}

/// A press starts a translate session exactly when the pressed shortcut is
/// the configured translate hotkey, modifiers included: the hotkey string is
/// not empty and parses to exactly the pressed shortcut.
pub proof fn lemma_translate_press_is_exact(translate_hotkey: Seq<char>, pressed: Shortcut)
    ensures
        shortcut_action_spec(true, translate_hotkey, pressed, PipelineState::Idle)
            == (ShortcutAction::StartRecording {
            translate: translate_hotkey.len() > 0 && parse_hotkey_spec(translate_hotkey) == Some(
                pressed,
            ),
        }),
        (parse_hotkey_spec(translate_hotkey) matches Some(t) && t.mods != pressed.mods)
            ==> shortcut_action_spec(true, translate_hotkey, pressed, PipelineState::Idle)
            == (ShortcutAction::StartRecording { translate: false }),
{
}

/// Only one of two racing starts records: the second is always refused.
pub proof fn lemma_second_start_refused(v: SessionView)
    ensures
        !begin_recording_step(begin_recording_step(v).0).1,
{
}

/// Recording starts exactly when the pipeline is idle.
pub proof fn lemma_start_only_when_idle(v: SessionView)
    ensures
        begin_recording_step(v).1 <==> v.state == PipelineState::Idle,
        begin_recording_step(v).0.state == if v.state == PipelineState::Idle {
            PipelineState::Recording
        } else {
            v.state
        },
{
}

/// Stopping moves on only from `Recording`.
pub proof fn lemma_stop_only_when_recording(v: SessionView)
    ensures
        begin_transcribing_step(v).1 <==> v.state == PipelineState::Recording,
{
}

/// Cancelling always returns to `Idle`, and the dictation it cancels yields no output.
pub proof fn lemma_cancel_yields_no_output(v: SessionView)
    ensures
        force_idle_step(v).state == PipelineState::Idle,
        finish_transcription_step(force_idle_step(v)).1 == OutcomeView::Cancelled,
{
}

/// A new recording after a cancel starts clean: not cancelled, empty transcript.
pub proof fn lemma_restart_after_cancel(v: SessionView)
    ensures
        begin_recording_step(force_idle_step(v)).1,
        !begin_recording_step(force_idle_step(v)).0.cancelled,
        begin_recording_step(force_idle_step(v)).0.accumulated.len() == 0,
{
}

/// The transcript handed on is what `translate_last` later translates.
pub proof fn lemma_ready_transcript_is_remembered(v: SessionView)
    requires
        !v.cancelled,
        trim(v.accumulated).len() > 0,
    ensures
        finish_transcription_step(v).1 == (OutcomeView::Ready {
            text: trim(v.accumulated),
            translate: v.translate_session,
        }),
        finish_transcription_step(v).0.last_raw == trim(v.accumulated),
{
}

/// Ending a dictation always clears the translate-session mark, whatever
/// the outcome, so the next recording is translated only if marked anew; a
/// ready transcript carries the mark it was recorded with.
pub proof fn lemma_translate_mark_cleared_by_finish(v: SessionView)
    ensures
        !finish_transcription_step(v).0.translate_session,
        !begin_recording_step(finish_transcription_step(v).0).0.translate_session,
        finish_transcription_step(v).1 matches OutcomeView::Ready { translate, .. } ==> translate
            == v.translate_session,
{
}

/// After a cancel, a dictation that is still finishing can move to no later
/// stage: the state stays `Idle`, nothing else changes and no history entry
/// is due (`history_due` is false while cancelled), until the next
/// recording starts.
pub proof fn lemma_cancel_blocks_later_stages(v: SessionView, to: PipelineState)
    ensures
        advance_step(force_idle_step(v), to) == (force_idle_step(v), false),
        advance_step(force_idle_step(v), to).0.state == PipelineState::Idle,
        force_idle_step(v).cancelled,
{
}

/// Without a cancel, a dictation moves on as asked.
pub proof fn lemma_uncancelled_advances(v: SessionView, to: PipelineState)
    requires
        !v.cancelled,
    ensures
        advance_step(v, to).1,
        advance_step(v, to).0.state == to,
{
}

// ─── Decisions ───
/// Whether recording must stop before it starts because the speech
/// recognizer has no key: only providers other than the cloud one and the
/// local model need a key.
pub fn stt_key_missing(stt_provider: &str, stt_api_key: &str) -> (r: bool)
    ensures
        r == (stt_api_key@.len() == 0 && stt_provider@ != "cloud"@ && stt_provider@
            != "sensevoice-local"@),
{
    stt_api_key.is_empty() && !str_eq(stt_provider, "cloud") && !str_eq(
        stt_provider,
        "sensevoice-local",
    )
}

/// The recognition language to request: none for automatic (`multi`).
pub fn stt_language(configured: &str) -> (r: Option<String>)
    ensures
        configured@ == "multi"@ ==> r is None,
        configured@ != "multi"@ ==> (r matches Some(l) && l@ == configured@),
{
    if str_eq(configured, "multi") {
        None
    } else {
        Some(configured.to_owned())
    }
}

/// The credential a provider is called with: the session token for the
/// cloud provider, the configured key otherwise.
pub fn provider_credential(provider: &str, session_token: &str, api_key: &str) -> (r: String)
    ensures
        r@ == if provider@ == "cloud"@ {
            session_token@
        } else {
            api_key@
        },
{
    if str_eq(provider, "cloud") {
        session_token.to_owned()
    } else {
        api_key.to_owned()
    }
}

/// Whether the transcript goes through the language model: when polishing is
/// on or this is a translate session, and there is a key or the provider is
/// the cloud one.
pub fn llm_needed(
    polish_enabled: bool,
    translate_session: bool,
    llm_provider: &str,
    llm_api_key: &str,
) -> (r: bool)
    ensures
        r == ((polish_enabled || translate_session) && (llm_api_key@.len() > 0 || llm_provider@
            == "cloud"@)),
{
    (polish_enabled || translate_session) && (!llm_api_key.is_empty() || str_eq(
        llm_provider,
        "cloud",
    ))
}

/// The text to output from the model's answer: trimmed, emoji removed;
/// `None` when nothing is left (the dictation held only filler words).
pub fn finalize_polished(polished: &str) -> (r: Option<String>)
    ensures
        without_emoji(trim(polished@)).len() == 0 ==> r is None,
        without_emoji(trim(polished@)).len() > 0 ==> (r matches Some(t) && t@ == without_emoji(
            trim(polished@),
        )),
{
    let cs = chars_of(polished);
    let t = trim_chars(&cs);
    let s = string_from_chars(&t);
    let out = strip_emoji(s.as_str());
    if out.as_str().is_empty() {
        None
    } else {
        Some(out)
    }
}

/// The text a dictation outputs: the raw transcript when the language model
/// was not asked or failed; otherwise the model's answer as
/// `finalize_polished` leaves it, or nothing when nothing is left of it.
pub open spec fn text_to_output_spec(raw: Seq<char>, polish: Option<Result<Seq<char>, Seq<char>>>) -> Option<
    Seq<char>,
> {
    match polish {
        None => Some(raw),
        Some(Err(_)) => Some(raw),
        Some(Ok(p)) => if without_emoji(trim(p)).len() > 0 {
            Some(without_emoji(trim(p)))
        } else {
            None
        },
    }
}

/// The model's answer, if it was asked, as plain values.
pub open spec fn polish_view(polish: Option<Result<String, String>>) -> Option<Result<Seq<char>, Seq<char>>> {
    match polish {
        None => None,
        Some(Ok(p)) => Some(Ok(p@)),
        Some(Err(e)) => Some(Err(e@)),
    }
}

/// What a dictation outputs, given its raw transcript and, if the language
/// model was asked, its answer or error: see `text_to_output_spec`.
pub fn text_to_output(raw: &str, polish: Option<Result<String, String>>) -> (r: Option<String>)
    ensures
        match r {
            Some(t) => text_to_output_spec(raw@, polish_view(polish)) == Some(t@),
            None => text_to_output_spec(raw@, polish_view(polish)) is None,
        },
{
    match polish {
        None => Some(raw.to_owned()),
        Some(Err(_)) => Some(raw.to_owned()),
        Some(Ok(p)) => finalize_polished(p.as_str()),
    }
}

/// A failed polish never loses the dictation: the raw transcript is output.
pub proof fn lemma_polish_failure_outputs_raw(raw: Seq<char>, e: Seq<char>)
    ensures
        text_to_output_spec(raw, Some(Err(e))) == Some(raw),
        text_to_output_spec(raw, None) == Some(raw),
{
}

/// Where finished text goes.
#[derive(Debug, Clone, Copy, PartialEq, Eq, Structural)]
pub enum OutputRoute {
    /// Copy it and show the copy dialog.
    CopyPopup,
    /// Type it into the focused field.
    Keyboard,
    /// Paste it through the clipboard.
    Clipboard,
}

/// Where finished text goes: keyboard output without the accessibility
/// permission, or no focused text field at recording start, means the copy
/// dialog; otherwise the configured output mode.
pub fn output_route(output_mode: &str, accessibility_trusted: bool, input_focused: bool) -> (r:
    OutputRoute)
    ensures
        r == if output_mode@ == "keyboard"@ && !accessibility_trusted {
            OutputRoute::CopyPopup
        } else if !input_focused {
            OutputRoute::CopyPopup
        } else if output_mode@ == "keyboard"@ {
            OutputRoute::Keyboard
        } else {
            OutputRoute::Clipboard
        },
{
    let keyboard = str_eq(output_mode, "keyboard");
    if keyboard && !accessibility_trusted {
        OutputRoute::CopyPopup
    } else if !input_focused {
        OutputRoute::CopyPopup
    } else if keyboard {
        OutputRoute::Keyboard
    } else {
        OutputRoute::Clipboard
    }
}

/// The selected text captured by a simulated copy: what the clipboard held
/// after the copy, unless it is blank or unchanged from before (the copy
/// had no effect).
pub fn selected_text_result(backup: Option<String>, after_copy: Option<String>) -> (r: Option<
    String,
>)
    ensures
        r == match after_copy {
            Some(s) => if trim(s@).len() > 0 && !(backup matches Some(b) && b@ == s@) {
                Some(s)
            } else {
                None
            },
            None => None,
        },
{
    match after_copy {
        Some(s) => {
            let cs = chars_of(s.as_str());
            let t = trim_chars(&cs);
            if t.len() == 0 {
                return None;
            }
            let unchanged = match &backup {
                Some(b) => *b == s,
                None => false,
            };
            if unchanged {
                None
            } else {
                Some(s)
            }
        },
        None => None,
    }
}

/// What a hotkey press does to the pipeline.
#[derive(Debug, Clone, Copy, PartialEq, Eq, Structural)]
pub enum HotkeyAction {
    Start,
    Stop,
    Cancel,
}

/// A press starts when idle, stops when recording and cancels when stuck in
/// a later stage.
pub open spec fn hotkey_action_spec(state: PipelineState) -> HotkeyAction {
    match state {
        PipelineState::Idle => HotkeyAction::Start,
        PipelineState::Recording => HotkeyAction::Stop,
        _ => HotkeyAction::Cancel,
    }
}

/// What a hotkey press does in `state`.
pub fn hotkey_action(state: PipelineState) -> (a: HotkeyAction)
    ensures
        a == hotkey_action_spec(state),
{
    match state {
        PipelineState::Idle => HotkeyAction::Start,
        PipelineState::Recording => HotkeyAction::Stop,
        _ => HotkeyAction::Cancel,
    }
}

/// What a global-shortcut event does.
#[derive(Debug, Clone, Copy, PartialEq, Eq, Structural)]
pub enum ShortcutAction {
    /// Nothing happens: a release while not recording.
    Ignore,
    /// Start recording; a translate session if the translate hotkey was pressed.
    StartRecording { translate: bool },
    StopRecording,
    ForceIdle,
}

/// Whether `pressed` is the configured translate hotkey.
pub open spec fn is_translate_hotkey(translate_hotkey: Seq<char>, pressed: Shortcut) -> bool {
    translate_hotkey.len() > 0 && parse_hotkey_spec(translate_hotkey) == Some(pressed)
}

/// A release while recording stops the recording; any other release does
/// nothing; a press acts as `hotkey_action_spec` says.
pub open spec fn shortcut_action_spec(
    is_press: bool,
    translate_hotkey: Seq<char>,
    pressed: Shortcut,
    state: PipelineState,
) -> ShortcutAction {
    if !is_press {
        if state == PipelineState::Recording {
            ShortcutAction::StopRecording
        } else {
            ShortcutAction::Ignore
        }
    } else {
        match hotkey_action_spec(state) {
            HotkeyAction::Start => ShortcutAction::StartRecording {
                translate: is_translate_hotkey(translate_hotkey, pressed),
            },
            HotkeyAction::Stop => ShortcutAction::StopRecording,
            HotkeyAction::Cancel => ShortcutAction::ForceIdle,
        }
    }
}

/// Hold to talk: pressing the hotkey when idle starts a recording, and
/// letting it go while that recording runs stops it, so the text is output.
pub proof fn lemma_hold_to_talk(v: SessionView, translate_hotkey: Seq<char>, pressed: Shortcut)
    requires
        v.state == PipelineState::Idle,
    ensures
        shortcut_action_spec(true, translate_hotkey, pressed, v.state) is StartRecording,
        begin_recording_step(v).1,
        shortcut_action_spec(false, translate_hotkey, pressed, begin_recording_step(v).0.state)
            == ShortcutAction::StopRecording,
        begin_transcribing_step(begin_recording_step(v).0).1,
{
}

/// What a shortcut event does. The hotkey is held to speak: letting it go
/// while recording stops the recording so the text is output, and any other
/// release does nothing. A press acts as `hotkey_action` says, a start being
/// a translate session when the pressed shortcut is the translate hotkey.
pub fn shortcut_action(
    is_press: bool,
    translate_hotkey: &str,
    pressed: Shortcut,
    state: PipelineState,
) -> (a: ShortcutAction)
    ensures
        a == shortcut_action_spec(is_press, translate_hotkey@, pressed, state),
{
    if !is_press {
        return if state == PipelineState::Recording {
            ShortcutAction::StopRecording
        } else {
            ShortcutAction::Ignore
        };
    }
    let is_translate = if translate_hotkey.is_empty() {
        false
    } else {
        match parse_hotkey(translate_hotkey) {
            Some(t) => t.key == pressed.key && t.mods == pressed.mods,
            None => false,
        }
    };
    match hotkey_action(state) {
        HotkeyAction::Start => ShortcutAction::StartRecording { translate: is_translate },
        HotkeyAction::Stop => ShortcutAction::StopRecording,
        HotkeyAction::Cancel => ShortcutAction::ForceIdle,
    }
}

/// The tray tooltip for a state.
pub open spec fn tray_tooltip_spec(state: PipelineState) -> Seq<char> {
    match state {
        PipelineState::Recording => "ChangYan - Recording..."@,
        PipelineState::Transcribing => "ChangYan - Transcribing..."@,
        PipelineState::Polishing => "ChangYan - Polishing..."@,
        PipelineState::Outputting => "ChangYan - Outputting..."@,
        PipelineState::Idle => "ChangYan"@,
    }
}

/// The tray tooltip shown in `state`.
pub fn tray_tooltip(state: PipelineState) -> (t: &'static str)
    ensures
        t@ == tray_tooltip_spec(state),
{
    match state {
        PipelineState::Recording => "ChangYan - Recording...",
        PipelineState::Transcribing => "ChangYan - Transcribing...",
        PipelineState::Polishing => "ChangYan - Polishing...",
        PipelineState::Outputting => "ChangYan - Outputting...",
        PipelineState::Idle => "ChangYan",
    }
}

/// The label of the tray's show/hide item.
pub fn window_menu_label(window_visible: bool) -> (t: &'static str)
    ensures
        t@ == if window_visible {
            "Hide Window"@
        } else {
            "Show Window"@
        },
{
    if window_visible {
        "Hide Window"
    } else {
        "Show Window"
    }
}

/// The label of the tray's recording item.
pub fn record_menu_label(is_recording: bool) -> (t: &'static str)
    ensures
        t@ == if is_recording {
            "Stop Recording"@
        } else {
            "Start Recording"@
        },
{
    if is_recording {
        "Stop Recording"
    } else {
        "Start Recording"
    }
}

/// The speech endpoint to warm up for a provider, `None` for providers that
/// have none (the local model, unknown names).
pub open spec fn stt_prewarm_url_spec(provider: Seq<char>, api_base: Seq<char>) -> Option<Seq<char>> {
    if provider == "cloud"@ {
        Some(api_base + "/api/proxy/stt"@)
    } else if provider == "glm-asr"@ {
        Some("https://open.bigmodel.cn/api/paas/v4/audio/transcriptions"@)
    } else if provider == "openai-whisper"@ {
        Some("https://api.openai.com/v1/audio/transcriptions"@)
    } else if provider == "groq-whisper"@ {
        Some("https://api.groq.com/openai/v1/audio/transcriptions"@)
    } else if provider == "siliconflow"@ {
        Some("https://api.siliconflow.cn/v1/audio/transcriptions"@)
    } else if provider == "deepgram"@ {
        Some("https://api.deepgram.com/v1/listen"@)
    } else if provider == "assemblyai"@ {
        Some("https://api.assemblyai.com/v2/transcript"@)
    } else {
        None
    }
}

/// The speech endpoint to warm up at startup.
pub fn stt_prewarm_url(provider: &str, api_base: &str) -> (r: Option<String>)
    ensures
        match r {
            Some(u) => stt_prewarm_url_spec(provider@, api_base@) == Some(u@),
            None => stt_prewarm_url_spec(provider@, api_base@) is None,
        },
{
    if str_eq(provider, "cloud") {
        let mut u = api_base.to_owned();
        push_str(&mut u, "/api/proxy/stt");
        Some(u)
    } else if str_eq(provider, "glm-asr") {
        Some("https://open.bigmodel.cn/api/paas/v4/audio/transcriptions".to_owned())
    } else if str_eq(provider, "openai-whisper") {
        Some("https://api.openai.com/v1/audio/transcriptions".to_owned())
    } else if str_eq(provider, "groq-whisper") {
        Some("https://api.groq.com/openai/v1/audio/transcriptions".to_owned())
    } else if str_eq(provider, "siliconflow") {
        Some("https://api.siliconflow.cn/v1/audio/transcriptions".to_owned())
    } else if str_eq(provider, "deepgram") {
        Some("https://api.deepgram.com/v1/listen".to_owned())
    } else if str_eq(provider, "assemblyai") {
        Some("https://api.assemblyai.com/v2/transcript".to_owned())
    } else {
        None
    }
}

/// The language-model endpoint to warm up: none unless polishing is on; the
/// cloud proxy for the cloud provider, the configured base URL otherwise.
pub fn llm_prewarm_url(polish_enabled: bool, llm_provider: &str, llm_base_url: &str, api_base: &str)
    -> (r: Option<String>)
    ensures
        !polish_enabled ==> r is None,
        polish_enabled ==> (r matches Some(u) && u@ == if llm_provider@ == "cloud"@ {
            api_base@ + "/api/proxy/llm"@
        } else {
            llm_base_url@
        }),
{
    if !polish_enabled {
        return None;
    }
    if str_eq(llm_provider, "cloud") {
        let mut u = api_base.to_owned();
        push_str(&mut u, "/api/proxy/llm");
        Some(u)
    } else {
        Some(llm_base_url.to_owned())
    }
}

} // verus!
