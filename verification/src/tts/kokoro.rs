//! The Kokoro engine's voices: which catalogue voices it speaks, and under
//! which of its own voice ids.

use crate::pairs::{lookup_pair, lookup_pair_exec};
use crate::tts::voices::{catalogue, voice_table, VoiceMeta};
use vstd::prelude::*;

verus! {

/// Catalogue voice ids mapped to Kokoro voice ids, followed by Kokoro's own
/// voice ids (each standing for itself).
pub open spec fn kokoro_table() -> Seq<(&'static str, &'static str)> {
    seq![
        ("en_US-amy-medium", "af_heart"),
        ("en_US-amy-high", "af_heart"),
        ("en_US-ryan-high", "am_adam"),
        ("en_US-ryan-medium", "am_adam"),
        ("en_US-lessac-medium", "af_alloy"),
        ("en_US-lessac-high", "af_alloy"),
        ("en_US-hubert-high", "am_onyx"),
        ("en_GB-alan-low", "bm_george"),
        ("en_GB-cori-high", "bf_emma"),
        ("af_heart", "af_heart"),
        ("af_bella", "af_bella"),
        ("af_sky", "af_sky"),
        ("af_nova", "af_nova"),
        ("af_sarah", "af_sarah"),
        ("af_alloy", "af_alloy"),
        ("af_nicole", "af_nicole"),
        ("af_jessica", "af_jessica"),
        ("af_river", "af_river"),
        ("af_aoede", "af_aoede"),
        ("af_kore", "af_kore"),
        ("am_adam", "am_adam"),
        ("am_michael", "am_michael"),
        ("am_onyx", "am_onyx"),
        ("am_echo", "am_echo"),
        ("am_eric", "am_eric"),
        ("am_liam", "am_liam"),
        ("am_puck", "am_puck"),
        ("am_fenrir", "am_fenrir"),
        ("am_santa", "am_santa"),
        ("bf_emma", "bf_emma"),
        ("bf_alice", "bf_alice"),
        ("bf_isabella", "bf_isabella"),
        ("bf_lily", "bf_lily"),
        ("bm_george", "bm_george"),
        ("bm_daniel", "bm_daniel"),
        ("bm_fred", "bm_fred"),
        ("bm_leo", "bm_leo"),
        ("bm_pierre", "bm_pierre"),
    ]
}

/// The table as a vector.
pub fn kokoro_voices() -> (v: Vec<(&'static str, &'static str)>)
    ensures
        v@ == kokoro_table(),
{
    vec![
        ("en_US-amy-medium", "af_heart"),
        ("en_US-amy-high", "af_heart"),
        ("en_US-ryan-high", "am_adam"),
        ("en_US-ryan-medium", "am_adam"),
        ("en_US-lessac-medium", "af_alloy"),
        ("en_US-lessac-high", "af_alloy"),
        ("en_US-hubert-high", "am_onyx"),
        ("en_GB-alan-low", "bm_george"),
        ("en_GB-cori-high", "bf_emma"),
        ("af_heart", "af_heart"),
        ("af_bella", "af_bella"),
        ("af_sky", "af_sky"),
        ("af_nova", "af_nova"),
        ("af_sarah", "af_sarah"),
        ("af_alloy", "af_alloy"),
        ("af_nicole", "af_nicole"),
        ("af_jessica", "af_jessica"),
        ("af_river", "af_river"),
        ("af_aoede", "af_aoede"),
        ("af_kore", "af_kore"),
        ("am_adam", "am_adam"),
        ("am_michael", "am_michael"),
        ("am_onyx", "am_onyx"),
        ("am_echo", "am_echo"),
        ("am_eric", "am_eric"),
        ("am_liam", "am_liam"),
        ("am_puck", "am_puck"),
        ("am_fenrir", "am_fenrir"),
        ("am_santa", "am_santa"),
        ("bf_emma", "bf_emma"),
        ("bf_alice", "bf_alice"),
        ("bf_isabella", "bf_isabella"),
        ("bf_lily", "bf_lily"),
        ("bm_george", "bm_george"),
        ("bm_daniel", "bm_daniel"),
        ("bm_fred", "bm_fred"),
        ("bm_leo", "bm_leo"),
        ("bm_pierre", "bm_pierre"),
    ]
}

/// The Kokoro voice for a voice id, if the engine has one.
pub fn kokoro_voice(id: &str) -> (r: Option<&'static str>)
    ensures
        r == lookup_pair(kokoro_table(), id@),
{
    let t = kokoro_voices();
    lookup_pair_exec(t.as_slice(), id)
}

/// Whether the Kokoro engine speaks a catalogue voice.
pub open spec fn kokoro_speaks(v: VoiceMeta) -> bool {
    lookup_pair(kokoro_table(), v.id@) is Some
}

/// The catalogue voices the Kokoro engine speaks, in catalogue order.
pub fn kokoro_available() -> (r: Vec<VoiceMeta>)
    ensures
        r@ == voice_table().filter(|v: VoiceMeta| kokoro_speaks(v)),
{
    let all = catalogue();
    let mut out: Vec<VoiceMeta> = Vec::new();
    let mut k: usize = 0;
    while k < all.len()
        invariant
            all@ == voice_table(),
            k <= all.len(),
            out@ == voice_table().take(k as int).filter(|v: VoiceMeta| kokoro_speaks(v)),
        decreases all.len() - k,
    {
        proof {
            reveal_with_fuel(Seq::<_>::filter, 1);
            assert(voice_table().take(k + 1).drop_last() =~= voice_table().take(k as int));
        }
        if kokoro_voice(all[k].id).is_some() {
            out.push(all[k]);
        }
        k = k + 1;
    }
    proof {
        assert(voice_table().take(all.len() as int) =~= voice_table());
    }
    out
}

} // verus!
