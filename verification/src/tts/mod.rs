//! Text-to-speech: the voice catalogue, curated presets, the Piper and
//! Kokoro engines' voice layouts, and engine routing.

pub mod kokoro;
pub mod presets;
pub mod router;
pub mod voices;
pub mod voice_ids;

use crate::text::{join, join_path, push_str, to_owned};
use vstd::prelude::*;

verus! {

/// The Piper engine: a local binary and a directory of voice models, laid
/// out as `<voices_dir>/<lang>/<voice_id>.onnx`.
pub struct PiperTts {
    pub binary: String,
    pub voices_dir: String,
}

impl PiperTts {
    pub fn new(binary: String, voices_dir: String) -> (p: Self)
        ensures
            p.binary == binary,
            p.voices_dir == voices_dir,
    {
        PiperTts { binary, voices_dir }
    }

    /// The model file of a voice.
    pub fn model_path(&self, voice_id: &str, lang: &str) -> (p: String)
        ensures
            p@ == join_path(join_path(self.voices_dir@, lang@), voice_id@ + ".onnx"@),
    {
        let dir = join(self.voices_dir.as_str(), lang);
        let mut file = to_owned(voice_id);
        push_str(&mut file, ".onnx");
        join(dir.as_str(), file.as_str())
    }
}

} // verus!
