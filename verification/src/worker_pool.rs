//! Configuration of the bounded worker pool that caps concurrent synthesis
//! and conversion jobs.

use vstd::prelude::*;

verus! {

/// Worker pool configuration.
#[derive(Debug, Clone)]
pub struct WorkerPoolConfig {
    /// Max concurrent synthesis jobs (TTS and clone).
    pub max_synth: usize,
    /// Max concurrent ffmpeg conversions.
    pub max_convert: usize,
}

impl Default for WorkerPoolConfig {
    /// Two synthesis jobs and two conversions at a time.
    fn default() -> (c: Self)
        ensures
            c.max_synth == 2,
            c.max_convert == 2,
    {
        WorkerPoolConfig { max_synth: 2, max_convert: 2 }
    }
}

} // verus!
