//! Where audio processing keeps its scratch files.
//!
//! The conversions themselves (WAV to OGG/Opus and back) run `ffmpeg` and
//! live in the application.

use crate::text::{join, join_path, push_str, to_owned};
use vstd::prelude::*;

verus! {

/// The scratch directory of audio conversions.
pub struct AudioProcessor {
    pub output_dir: String,
}

impl AudioProcessor {
    /// A processor writing its scratch files under `output_dir` (which the
    /// application creates).
    pub fn new(output_dir: &str) -> (p: Self)
        ensures
            p.output_dir@ == output_dir@,
    {
        AudioProcessor { output_dir: to_owned(output_dir) }
    }

    /// The path of a scratch file `<stem>.<ext>` in the output directory
    /// (the application names each one with a fresh UUID).
    pub fn tmp_path(&self, stem: &str, ext: &str) -> (p: String)
        ensures
            p@ == join_path(self.output_dir@, stem@ + "."@ + ext@),
    {
        let mut name = to_owned(stem);
        push_str(&mut name, ".");
        push_str(&mut name, ext);
        join(self.output_dir.as_str(), name.as_str())
    }
}

} // verus!
