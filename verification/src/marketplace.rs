//! Voice Pack Marketplace.
//!
//! A curated catalogue of voice "packs": themed bundles that map one voice id
//! per language. Installing a pack activates its voice for the user's
//! language.

use crate::pairs::lookup_pair;
use crate::pairs::lookup_pair_exec;
use crate::text::push_str;
use crate::text::str_eq;
use crate::tts::voices;
use crate::tts::voices::voice_table;
use vstd::prelude::*;

verus! {

/// A themed bundle of voices, one per language.
#[derive(Debug, Clone, Copy)]
pub struct VoicePack {
    pub id: &'static str,
    pub name: &'static str,
    pub emoji: &'static str,
    pub blurb: &'static str,
    /// Pack default voice per language (language code, voice id).
    pub voices: &'static [(&'static str, &'static str)],
}

/// The packs, in catalogue order.
pub open spec fn pack_table() -> Seq<VoicePack> {
    seq![
        VoicePack {
            id: "amy",
            name: "Amy (Default)",
            emoji: "🌐",
            blurb: "Balanced all-rounder, default on new accounts.",
            voices: &[("en", "en_US-amy-medium")],
        },
        VoicePack {
            id: "news",
            name: "News Anchor",
            emoji: "📰",
            blurb: "Clear, neutral broadcast voices.",
            voices: &[
                ("en", "en_US-amy-medium"),
                ("ar", "ar_JO-kareem-medium"),
                ("fr", "fr_FR-siwis-medium"),
                ("es", "es_ES-mls_10246-low"),
            ],
        },
        VoicePack {
            id: "companion",
            name: "Companion",
            emoji: "🎧",
            blurb: "Warm, approachable everyday voices.",
            voices: &[
                ("en", "en_US-lessac-medium"),
                ("ar", "ar-zayd0-diacritized"),
                ("fr", "fr_FR-upmc-medium"),
                ("es", "es_ES-carlfm-x_low"),
            ],
        },
        VoicePack {
            id: "arabic_elite",
            name: "Arabic Elite",
            emoji: "🇸🇦",
            blurb: "Premium Arabic voices, including the Emirati female pack.",
            voices: &[("ar", "ar_AE-emirati-female"), ("en", "en_US-amy-medium")],
        },
    ]
}

/// The packs as a vector, in catalogue order.
pub fn packs() -> (v: Vec<VoicePack>)
    ensures
        v@ == pack_table(),
{
    vec![
        VoicePack {
            id: "amy",
            name: "Amy (Default)",
            emoji: "🌐",
            blurb: "Balanced all-rounder, default on new accounts.",
            voices: &[("en", "en_US-amy-medium")],
        },
        VoicePack {
            id: "news",
            name: "News Anchor",
            emoji: "📰",
            blurb: "Clear, neutral broadcast voices.",
            voices: &[
                ("en", "en_US-amy-medium"),
                ("ar", "ar_JO-kareem-medium"),
                ("fr", "fr_FR-siwis-medium"),
                ("es", "es_ES-mls_10246-low"),
            ],
        },
        VoicePack {
            id: "companion",
            name: "Companion",
            emoji: "🎧",
            blurb: "Warm, approachable everyday voices.",
            voices: &[
                ("en", "en_US-lessac-medium"),
                ("ar", "ar-zayd0-diacritized"),
                ("fr", "fr_FR-upmc-medium"),
                ("es", "es_ES-carlfm-x_low"),
            ],
        },
        VoicePack {
            id: "arabic_elite",
            name: "Arabic Elite",
            emoji: "🇸🇦",
            blurb: "Premium Arabic voices, including the Emirati female pack.",
            voices: &[("ar", "ar_AE-emirati-female"), ("en", "en_US-amy-medium")],
        },
    ]
}

/// Every pack maps at least one language.
proof fn lemma_packs_nonempty(i: int)
    requires
        0 <= i < pack_table().len(),
    ensures
        pack_table()[i].voices@.len() > 0,
{
}

/// The index of the first pack with id `pack_id`, if any.
pub open spec fn pack_index(pack_id: Seq<char>) -> Option<int> {
    pack_index_from(pack_table(), pack_id, 0)
}

/// The index, counted from `start`, of the first pack in `t` with the id.
pub open spec fn pack_index_from(t: Seq<VoicePack>, pack_id: Seq<char>, start: int) -> Option<int>
    decreases t.len() - start,
{
    if start < 0 || start >= t.len() {
        None
    } else if t[start].id@ == pack_id {
        Some(start)
    } else {
        pack_index_from(t, pack_id, start + 1)
    }
}

/// The voice a pack gives a language: its entry for the language, else the
/// pack's first voice; nothing for an unknown pack.
pub open spec fn spec_pack_voice(pack_id: Seq<char>, lang: Seq<char>) -> Option<&'static str> {
    match pack_index(pack_id) {
        None => None,
        Some(i) => match lookup_pair(pack_table()[i].voices@, lang) {
            Some(v) => Some(v),
            None => Some(pack_table()[i].voices@[0].1),
        },
    }
}

proof fn lemma_lookup_pair_found(t: Seq<(&'static str, &'static str)>, key: Seq<char>)
    ensures
        (forall|j: int| 0 <= j < t.len() ==> #[trigger] t[j].0@ != key) ==> lookup_pair(t, key)
            is None,
        forall|k: int|
            0 <= k < t.len() && t[k].0@ == key && (forall|j: int| 0 <= j < k ==> #[trigger] t[j].0@
                != key) ==> lookup_pair(t, key) == Some(t[k].1),
    decreases t.len(),
{
    if t.len() > 0 {
        lemma_lookup_pair_found(t.drop_first(), key);
        assert forall|k: int|
            0 <= k < t.len() && t[k].0@ == key && (forall|j: int| 0 <= j < k ==> #[trigger] t[j].0@
                != key) implies lookup_pair(t, key) == Some(t[k].1) by {
            if k > 0 {
                assert(t[0].0@ != key);
                assert(t.drop_first()[k - 1] == t[k]);
                assert forall|j: int| 0 <= j < k - 1 implies #[trigger] t.drop_first()[j].0@ != key by {
                    assert(t.drop_first()[j] == t[j + 1]);
                }
            }
        }
        if forall|j: int| 0 <= j < t.len() ==> #[trigger] t[j].0@ != key {
            assert forall|j: int| 0 <= j < t.drop_first().len() implies #[trigger] t.drop_first()[j].0@
                != key by {
                assert(t.drop_first()[j] == t[j + 1]);
            }
        }
    }
}

/// Pack-voice law: for a known pack, the voice for a language the pack
/// lists is the voice of the pack's first entry for it; for a language it
/// does not list, it is the pack's first listed voice (whatever other
/// languages, English included, it lists); an unknown pack gives nothing.
pub proof fn lemma_pack_voice_choice(pack_id: Seq<char>, lang: Seq<char>)
    ensures
        pack_index(pack_id) is None ==> spec_pack_voice(pack_id, lang) is None,
        pack_index(pack_id) matches Some(i) ==> ({
            let vs = pack_table()[i].voices@;
            &&& pack_table()[i].id@ == pack_id
            &&& (forall|j: int| 0 <= j < vs.len() ==> #[trigger] vs[j].0@ != lang)
                ==> spec_pack_voice(pack_id, lang) == Some(vs[0].1)
            &&& forall|k: int|
                0 <= k < vs.len() && vs[k].0@ == lang && (forall|j: int|
                    0 <= j < k ==> #[trigger] vs[j].0@ != lang) ==> spec_pack_voice(pack_id, lang)
                    == Some(vs[k].1)
        }),
{
    lemma_pack_index_found(pack_table(), pack_id, 0);
    if let Some(i) = pack_index(pack_id) {
        lemma_lookup_pair_found(pack_table()[i].voices@, lang);
    }
}

proof fn lemma_pack_index_found(t: Seq<VoicePack>, pack_id: Seq<char>, start: int)
    ensures
        pack_index_from(t, pack_id, start) matches Some(i) ==> 0 <= i < t.len() && t[i].id@
            == pack_id,
    decreases t.len() - start,
{
    if 0 <= start < t.len() && t[start].id@ != pack_id {
        lemma_pack_index_found(t, pack_id, start + 1);
    }
}

/// Pick the default voice id for a pack given the user's language.
pub fn pack_voice(pack_id: &str, lang: &str) -> (r: Option<&'static str>)
    ensures
        r == spec_pack_voice(pack_id@, lang@),
{
    let all = packs();
    let mut k: usize = 0;
    while k < all.len()
        invariant
            all@ == pack_table(),
            k <= all.len(),
            pack_index(pack_id@) == pack_index_from(pack_table(), pack_id@, k as int),
        decreases all.len() - k,
    {
        let p = all[k];
        if str_eq(p.id, pack_id) {
            proof {
                lemma_packs_nonempty(k as int);
            }
            return match lookup_pair_exec(p.voices, lang) {
                Some(v) => Some(v),
                None => Some(p.voices[0].1),
            };
        }
        k = k + 1;
    }
    None
}

/// Whether a pack maps some language to the voice.
pub open spec fn pack_has_voice(p: VoicePack, voice_id: Seq<char>) -> bool {
    exists|j: int| 0 <= j < p.voices@.len() && #[trigger] p.voices@[j].1@ == voice_id
}

fn pack_maps_voice(p: &VoicePack, voice_id: &str) -> (r: bool)
    ensures
        r == pack_has_voice(*p, voice_id@),
{
    let mut j: usize = 0;
    while j < p.voices.len()
        invariant
            j <= p.voices@.len(),
            forall|m: int| 0 <= m < j ==> #[trigger] p.voices@[m].1@ != voice_id@,
        decreases p.voices@.len() - j,
    {
        if str_eq(p.voices[j].1, voice_id) {
            return true;
        }
        j = j + 1;
    }
    false
}

/// Return the first pack that maps some language to the given voice id.
pub fn pack_for_voice(voice_id: &str) -> (r: Option<VoicePack>)
    ensures
        r is None <==> (forall|i: int|
            0 <= i < pack_table().len() ==> !pack_has_voice(#[trigger] pack_table()[i], voice_id@)),
        r matches Some(p) ==> exists|i: int|
            0 <= i < pack_table().len() && pack_table()[i] == p && pack_has_voice(p, voice_id@)
                && (forall|j: int|
                0 <= j < i ==> !pack_has_voice(#[trigger] pack_table()[j], voice_id@)),
{
    let all = packs();
    let mut k: usize = 0;
    while k < all.len()
        invariant
            all@ == pack_table(),
            k <= all.len(),
            forall|j: int| 0 <= j < k ==> !pack_has_voice(#[trigger] pack_table()[j], voice_id@),
        decreases all.len() - k,
    {
        if pack_maps_voice(&all[k], voice_id) {
            return Some(all[k]);
        }
        k = k + 1;
    }
    None
}

/// Whether the catalogue holds a voice with this id.
pub open spec fn in_catalogue(voice_id: Seq<char>) -> bool {
    exists|i: int| 0 <= i < voice_table().len() && #[trigger] voice_table()[i].id@ == voice_id
}

/// Whether every voice that every pack maps is a catalogue voice.
pub open spec fn all_pack_voices_resolve() -> bool {
    forall|i: int, j: int|
        0 <= i < pack_table().len() && 0 <= j < pack_table()[i].voices@.len() ==> in_catalogue(
            #[trigger] pack_table()[i].voices@[j].1@,
        )
}

/// Check that every pack voice is in the catalogue; the error names the
/// first pack and voice that are not.
pub fn _voice_ids_exist() -> (r: Result<(), String>)
    ensures
        r is Ok <==> all_pack_voices_resolve(),
{
    let all = packs();
    let mut k: usize = 0;
    while k < all.len()
        invariant
            all@ == pack_table(),
            k <= all.len(),
            forall|i: int, j: int|
                0 <= i < k && 0 <= j < pack_table()[i].voices@.len() ==> in_catalogue(
                    #[trigger] pack_table()[i].voices@[j].1@,
                ),
        decreases all.len() - k,
    {
        let p = all[k];
        let mut j: usize = 0;
        while j < p.voices.len()
            invariant
                all@ == pack_table(),
                k < all.len(),
                p == pack_table()[k as int],
                j <= p.voices@.len(),
                forall|i: int, m: int|
                    0 <= i < k && 0 <= m < pack_table()[i].voices@.len() ==> in_catalogue(
                        #[trigger] pack_table()[i].voices@[m].1@,
                    ),
                forall|m: int| 0 <= m < j ==> in_catalogue(#[trigger] p.voices@[m].1@),
            decreases p.voices@.len() - j,
        {
            let v = p.voices[j].1;
            match voices::find(v) {
                None => {
                    let mut msg = String::new();
                    push_str(&mut msg, "pack '");
                    push_str(&mut msg, p.id);
                    push_str(&mut msg, "' references missing voice '");
                    push_str(&mut msg, v);
                    push_str(&mut msg, "'");
                    return Err(msg);
                },
                Some(_) => {},
            }
            j = j + 1;
        }
        k = k + 1;
    }
    Ok(())
}

/// Every voice that every pack maps is a catalogue voice.
pub proof fn lemma_all_pack_voices_resolve()
    ensures
        all_pack_voices_resolve(),
{
    assert forall|i: int, j: int|
        0 <= i < pack_table().len() && 0 <= j < pack_table()[i].voices@.len() implies in_catalogue(
        #[trigger] pack_table()[i].voices@[j].1@,
    ) by {
        if i == 0 && j == 0 {
            assert(voice_table()[0].id@ == pack_table()[i].voices@[j].1@);
        }
        if i == 1 && j == 0 {
            assert(voice_table()[0].id@ == pack_table()[i].voices@[j].1@);
        }
        if i == 1 && j == 1 {
            assert(voice_table()[9].id@ == pack_table()[i].voices@[j].1@);
        }
        if i == 1 && j == 2 {
            assert(voice_table()[15].id@ == pack_table()[i].voices@[j].1@);
        }
        if i == 1 && j == 3 {
            assert(voice_table()[17].id@ == pack_table()[i].voices@[j].1@);
        }
        if i == 2 && j == 0 {
            assert(voice_table()[4].id@ == pack_table()[i].voices@[j].1@);
        }
        if i == 2 && j == 1 {
            assert(voice_table()[11].id@ == pack_table()[i].voices@[j].1@);
        }
        if i == 2 && j == 2 {
            assert(voice_table()[16].id@ == pack_table()[i].voices@[j].1@);
        }
        if i == 2 && j == 3 {
            assert(voice_table()[18].id@ == pack_table()[i].voices@[j].1@);
        }
        if i == 3 && j == 0 {
            assert(voice_table()[10].id@ == pack_table()[i].voices@[j].1@);
        }
        if i == 3 && j == 1 {
            assert(voice_table()[0].id@ == pack_table()[i].voices@[j].1@);
        }
    }
}

} // verus!
