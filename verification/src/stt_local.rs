//! The local SenseVoice speech recognizer: it buffers the recording and
//! decodes it in one piece when the recording ends.
use vstd::prelude::*;
use crate::connection::concat;
use crate::text::{push_str, trim_str};

verus! {

/// How a speech recognizer is to be used for one recording.
pub struct SttConfig {
    pub api_key: String,
    /// The recognition language; `None` detects it.
    pub language: Option<String>,
    pub smart_format: bool,
    pub sample_rate: u32,
}

impl SttConfig {
    /// A copy of this configuration.
    pub fn duplicate(&self) -> (c: SttConfig)
        ensures
            c == *self,
    {
        SttConfig {
            api_key: self.api_key.clone(),
            language: match &self.language {
                Some(l) => Some(l.clone()),
                None => None,
            },
            smart_format: self.smart_format,
            sample_rate: self.sample_rate,
        }
    }
}

/// A transcript event from a streaming recognizer.
pub enum TranscriptEvent {
    Partial { text: String },
    Final { text: String },
    Error { message: String },
}

/// The work handed to the recognizer when a recording ends.
pub struct DecodeJob {
    /// 16-bit little-endian PCM.
    pub audio: Vec<u8>,
    pub sample_rate: u32,
    /// The recognition language, `auto` when none is configured.
    pub language: String,
}

/// The local recognizer's state: its model directory, the audio buffered so
/// far and the configuration it was connected with.
pub struct SenseVoiceLocalProvider {
    model_dir: String,
    audio_buffer: Vec<u8>,
    stt_config: Option<SttConfig>,
}

/// The recognizer's state as plain values.
pub struct SenseVoiceView {
    pub model_dir: Seq<char>,
    pub audio: Seq<u8>,
    pub config: Option<SttConfig>,
}

impl View for SenseVoiceLocalProvider {
    type V = SenseVoiceView;

    closed spec fn view(&self) -> SenseVoiceView {
        SenseVoiceView {
            model_dir: self.model_dir@,
            audio: self.audio_buffer@,
            config: self.stt_config,
        }
    }
}

pub const MODEL_MISSING_PREFIX: &'static str = "SenseVoice model not found at ";
pub const MODEL_MISSING_SUFFIX: &'static str = ". Please download it in Settings → Speech Recognition.";

/// The language a decode job asks for.
pub open spec fn job_language(config: SttConfig) -> Seq<char> {
    match config.language {
        Some(l) => l@,
        None => "auto"@,
    }
}

/// What a transcript from the recognizer yields: its trimmed text, or
/// nothing if that is empty.
pub open spec fn transcript_result_spec(text: Seq<char>) -> Option<Seq<char>> {
    if crate::text::trim(text).len() == 0 {
        None
    } else {
        Some(crate::text::trim(text))
    }
}

impl SenseVoiceLocalProvider {
    /// A recognizer for the model in `model_dir`, not yet connected.
    pub fn new(model_dir: String) -> (p: SenseVoiceLocalProvider)
        ensures
            p@ == (SenseVoiceView { model_dir: model_dir@, audio: Seq::empty(), config: None }),
    {
        SenseVoiceLocalProvider { model_dir, audio_buffer: Vec::new(), stt_config: None }
    }

    /// The model directory.
    pub fn model_dir(&self) -> (d: &str)
        ensures
            d@ == self@.model_dir,
    {
        self.model_dir.as_str()
    }

    /// Prepares a recording: fails, changing nothing, when the model files
    /// are missing; otherwise keeps `config` and empties the buffer.
    pub fn connect(&mut self, config: &SttConfig, model_files_present: bool) -> (r: Result<(), String>)
        ensures
            !model_files_present ==> (r matches Err(m) && m@ == MODEL_MISSING_PREFIX@ + old(self)@.model_dir
                + MODEL_MISSING_SUFFIX@ && final(self)@ == old(self)@),
            model_files_present ==> (r is Ok && final(self)@ == (SenseVoiceView {
                model_dir: old(self)@.model_dir,
                audio: Seq::empty(),
                config: Some(*config),
            })),
    {
        if !model_files_present {
            let mut m = concat(MODEL_MISSING_PREFIX, self.model_dir.as_str());
            push_str(&mut m, MODEL_MISSING_SUFFIX);
            return Err(m);
        }
        self.stt_config = Some(config.duplicate());
        self.audio_buffer = Vec::new();
        Ok(())
    }

    /// Buffers a chunk of audio.
    pub fn send_audio(&mut self, chunk: &[u8])
        ensures
            final(self)@ == (SenseVoiceView { audio: old(self)@.audio + chunk@, ..old(self)@ }),
    {
        let mut i: usize = 0;
        let ghost start = self.audio_buffer@;
        while i < chunk.len()
            invariant
                i <= chunk@.len(),
                self.audio_buffer@ == start + chunk@.take(i as int),
                self.model_dir == old(self).model_dir,
                self.stt_config == old(self).stt_config,
                start == old(self).audio_buffer@,
            decreases chunk.len() - i,
        {
            self.audio_buffer.push(chunk[i]);
            i = i + 1;
            assert(self.audio_buffer@ =~= start + chunk@.take(i as int));
        }
        assert(chunk@.take(chunk@.len() as int) =~= chunk@);
    }

    /// The local recognizer streams nothing: there is never a partial transcript.
    pub fn recv_transcript(&self) -> (r: Result<Option<TranscriptEvent>, String>)
        ensures
            r matches Ok(None),
    {
        Ok(None)
    }

    /// Ends the recording: nothing to decode if it was never connected or no
    /// audio arrived; otherwise hands over the buffered audio with the
    /// configured sample rate and language. Either way the configuration is
    /// released; the audio only when it is handed over.
    pub fn begin_disconnect(&mut self) -> (job: Option<DecodeJob>)
        ensures
            old(self)@.config is None ==> job is None && final(self)@ == old(self)@,
            old(self)@.config is Some && old(self)@.audio.len() == 0 ==> job is None
                && final(self)@ == (SenseVoiceView { config: None, ..old(self)@ }),
            old(self)@.config is Some && old(self)@.audio.len() > 0 ==> (job matches Some(j) && j.audio@
                == old(self)@.audio && j.sample_rate == old(self)@.config->0.sample_rate
                && j.language@ == job_language(old(self)@.config->0) && final(self)@ == (SenseVoiceView {
                model_dir: old(self)@.model_dir,
                audio: Seq::empty(),
                config: None,
            })),
    {
        let config = match self.stt_config.take() {
            Some(c) => c,
            None => return None,
        };
        if self.audio_buffer.len() == 0 {
            return None;
        }
        let mut audio: Vec<u8> = Vec::new();
        std::mem::swap(&mut audio, &mut self.audio_buffer);
        let language = match config.language {
            Some(l) => l,
            None => "auto".to_owned(),
        };
        Some(DecodeJob { audio, sample_rate: config.sample_rate, language })
    }

    /// The recognizer's display name.
    pub fn name(&self) -> (n: &'static str)
        ensures
            n@ == "SenseVoice Small (Local)"@,
    {
        "SenseVoice Small (Local)"
    }
}

/// What the recognizer's text yields: trimmed, or nothing if empty.
pub fn transcript_result(text: &str) -> (r: Option<String>)
    ensures
        match r {
            Some(t) => transcript_result_spec(text@) == Some(t@),
            None => transcript_result_spec(text@) is None,
        },
{
    let t = trim_str(text);
    if t.as_str().is_empty() {
        None
    } else {
        Some(t)
    }
}

} // verus!
