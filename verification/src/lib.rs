//! Verified core of a voice-dictation desktop tool: the system prompt sent to
//! the language model, hotkey parsing, the recording pipeline's state machine
//! and decisions, connection probes and model download helpers.
use vstd::prelude::*;

pub mod connection;
pub mod fn_key;
pub mod focus;
pub mod hotkey;
pub mod model;
pub mod pipeline;
pub mod prompt;
pub mod settings;
pub mod stt_local;
pub mod text;

verus! {

} // verus!
