//! The library's error type.

use crate::text::push_str;
use vstd::prelude::*;

verus! {

/// What can go wrong, with a description.
#[derive(Debug)]
pub enum AnubisError {
    Db(String),
    Pool(String),
    Llm(String),
    Tts(String),
    Clone(String),
    Audio(String),
    Wav(String),
    Http(String),
    Io(String),
    Json(String),
    VoiceNotFound(String),
}

/// The human-readable text of an error.
pub open spec fn error_text(e: AnubisError) -> Seq<char> {
    match e {
        AnubisError::Db(m) => "database: "@ + m@,
        AnubisError::Pool(m) => "db pool: "@ + m@,
        AnubisError::Llm(m) => "LLM (Noxis Core) failed: "@ + m@,
        AnubisError::Tts(m) => "TTS failed: "@ + m@,
        AnubisError::Clone(m) => "voice clone failed: "@ + m@,
        AnubisError::Audio(m) => "audio processing failed: "@ + m@,
        AnubisError::Wav(m) => "WAV codec: "@ + m@,
        AnubisError::Http(m) => "HTTP request failed: "@ + m@,
        AnubisError::Io(m) => "IO error: "@ + m@,
        AnubisError::Json(m) => "JSON error: "@ + m@,
        AnubisError::VoiceNotFound(m) => "voice not found: "@ + m@,
    }
}

impl AnubisError {
    /// The human-readable text of the error.
    pub fn message(&self) -> (s: String)
        ensures
            s@ == error_text(*self),
    {
        let mut out = String::new();
        match self {
            AnubisError::Db(m) => {
                push_str(&mut out, "database: ");
                push_str(&mut out, m.as_str());
            },
            AnubisError::Pool(m) => {
                push_str(&mut out, "db pool: ");
                push_str(&mut out, m.as_str());
            },
            AnubisError::Llm(m) => {
                push_str(&mut out, "LLM (Noxis Core) failed: ");
                push_str(&mut out, m.as_str());
            },
            AnubisError::Tts(m) => {
                push_str(&mut out, "TTS failed: ");
                push_str(&mut out, m.as_str());
            },
            AnubisError::Clone(m) => {
                push_str(&mut out, "voice clone failed: ");
                push_str(&mut out, m.as_str());
            },
            AnubisError::Audio(m) => {
                push_str(&mut out, "audio processing failed: ");
                push_str(&mut out, m.as_str());
            },
            AnubisError::Wav(m) => {
                push_str(&mut out, "WAV codec: ");
                push_str(&mut out, m.as_str());
            },
            AnubisError::Http(m) => {
                push_str(&mut out, "HTTP request failed: ");
                push_str(&mut out, m.as_str());
            },
            AnubisError::Io(m) => {
                push_str(&mut out, "IO error: ");
                push_str(&mut out, m.as_str());
            },
            AnubisError::Json(m) => {
                push_str(&mut out, "JSON error: ");
                push_str(&mut out, m.as_str());
            },
            AnubisError::VoiceNotFound(m) => {
                push_str(&mut out, "voice not found: ");
                push_str(&mut out, m.as_str());
            },
        }
        out
    }
}

} // verus!
