//! The voice catalogue: every TTS voice the bot can offer, and the best
//! voice per supported language.

use crate::pairs::lookup_pair;
use crate::pairs::lookup_pair_exec;
use crate::text::str_eq;
use vstd::prelude::*;

verus! {

/// One catalogue voice.
#[derive(Debug, Clone, Copy)]
pub struct VoiceMeta {
    pub id: &'static str,
    pub lang: &'static str,
    pub name: &'static str,
    pub gender: &'static str,
}

/// The catalogue, in order.
pub open spec fn voice_table() -> Seq<VoiceMeta> {
    seq![
        VoiceMeta { id: "en_US-amy-medium", lang: "en", name: "Amy", gender: "female" },
        VoiceMeta { id: "en_US-ryan-high", lang: "en", name: "Ryan", gender: "male" },
        VoiceMeta { id: "en_US-ryan-medium", lang: "en", name: "Ryan", gender: "male" },
        VoiceMeta { id: "en_GB-alan-low", lang: "en", name: "Alan", gender: "male" },
        VoiceMeta { id: "en_US-lessac-medium", lang: "en", name: "Lessac", gender: "female" },
        VoiceMeta { id: "en_US-lessac-high", lang: "en", name: "Lessac", gender: "female" },
        VoiceMeta { id: "en_GB-cori-high", lang: "en", name: "Cori", gender: "female" },
        VoiceMeta { id: "en_GB-northern_english_male-medium", lang: "en", name: "Northern", gender: "male" },
        VoiceMeta { id: "ar_JO-kareem-low", lang: "ar", name: "Kareem", gender: "male" },
        VoiceMeta { id: "ar_JO-kareem-medium", lang: "ar", name: "Kareem", gender: "male" },
        VoiceMeta { id: "ar_AE-emirati-female", lang: "ar", name: "Emirati", gender: "female" },
        VoiceMeta { id: "ar-zayd0-diacritized", lang: "ar", name: "Zayd", gender: "male" },
        VoiceMeta { id: "it_IT-riccardo-x_low", lang: "it", name: "Riccardo", gender: "male" },
        VoiceMeta { id: "it_IT-paola-medium", lang: "it", name: "Paola", gender: "female" },
        VoiceMeta { id: "fr_FR-siwis-low", lang: "fr", name: "Siwis", gender: "female" },
        VoiceMeta { id: "fr_FR-siwis-medium", lang: "fr", name: "Siwis", gender: "female" },
        VoiceMeta { id: "fr_FR-upmc-medium", lang: "fr", name: "UPMC", gender: "male" },
        VoiceMeta { id: "es_ES-mls_10246-low", lang: "es", name: "MLS", gender: "female" },
        VoiceMeta { id: "es_ES-carlfm-x_low", lang: "es", name: "Carlos", gender: "male" },
        VoiceMeta { id: "es_ES-davefx-medium", lang: "es", name: "Dave", gender: "male" },
        VoiceMeta { id: "de_DE-thorsten-medium", lang: "de", name: "Thorsten", gender: "male" },
        VoiceMeta { id: "de_DE-eva_k-x_low", lang: "de", name: "Eva", gender: "female" },
        VoiceMeta { id: "de_DE-thorsten-high", lang: "de", name: "Thorsten", gender: "male" },
        VoiceMeta { id: "ru_RU-irina-medium", lang: "ru", name: "Irina", gender: "female" },
        VoiceMeta { id: "ru_RU-ruslan-medium", lang: "ru", name: "Ruslan", gender: "male" },
        VoiceMeta { id: "ru_RU-denis-medium", lang: "ru", name: "Denis", gender: "male" },
        VoiceMeta { id: "hi_IN-pratham-medium", lang: "hi", name: "Pratham", gender: "male" },
        VoiceMeta { id: "hi_IN-priyamvada-medium", lang: "hi", name: "Priyamvada", gender: "female" },
        VoiceMeta { id: "tr_TR-dfki-medium", lang: "tr", name: "DFKI", gender: "female" },
        VoiceMeta { id: "pt_BR-faber-medium", lang: "pt", name: "Faber", gender: "male" },
        VoiceMeta { id: "af_heart", lang: "en", name: "Heart (Kokoro)", gender: "female" },
        VoiceMeta { id: "af_bella", lang: "en", name: "Bella (Kokoro)", gender: "female" },
        VoiceMeta { id: "af_sky", lang: "en", name: "Sky (Kokoro)", gender: "female" },
        VoiceMeta { id: "af_nova", lang: "en", name: "Nova (Kokoro)", gender: "female" },
        VoiceMeta { id: "af_sarah", lang: "en", name: "Sarah (Kokoro)", gender: "female" },
        VoiceMeta { id: "af_alloy", lang: "en", name: "Alloy (Kokoro)", gender: "female" },
        VoiceMeta { id: "af_nicole", lang: "en", name: "Nicole (Kokoro)", gender: "female" },
        VoiceMeta { id: "af_jessica", lang: "en", name: "Jessica (Kokoro)", gender: "female" },
        VoiceMeta { id: "af_river", lang: "en", name: "River (Kokoro)", gender: "female" },
        VoiceMeta { id: "af_aoede", lang: "en", name: "Aoede (Kokoro)", gender: "female" },
        VoiceMeta { id: "af_kore", lang: "en", name: "Kore (Kokoro)", gender: "female" },
        VoiceMeta { id: "am_adam", lang: "en", name: "Adam (Kokoro)", gender: "male" },
        VoiceMeta { id: "am_michael", lang: "en", name: "Michael (Kokoro)", gender: "male" },
        VoiceMeta { id: "am_onyx", lang: "en", name: "Onyx (Kokoro)", gender: "male" },
        VoiceMeta { id: "am_echo", lang: "en", name: "Echo (Kokoro)", gender: "male" },
        VoiceMeta { id: "am_eric", lang: "en", name: "Eric (Kokoro)", gender: "male" },
        VoiceMeta { id: "am_liam", lang: "en", name: "Liam (Kokoro)", gender: "male" },
        VoiceMeta { id: "am_puck", lang: "en", name: "Puck (Kokoro)", gender: "male" },
        VoiceMeta { id: "am_fenrir", lang: "en", name: "Fenrir (Kokoro)", gender: "male" },
        VoiceMeta { id: "am_santa", lang: "en", name: "Santa (Kokoro)", gender: "male" },
        VoiceMeta { id: "bf_emma", lang: "en", name: "Emma (UK)", gender: "female" },
        VoiceMeta { id: "bf_alice", lang: "en", name: "Alice (UK)", gender: "female" },
        VoiceMeta { id: "bf_isabella", lang: "en", name: "Isabella (UK)", gender: "female" },
        VoiceMeta { id: "bf_lily", lang: "en", name: "Lily (UK)", gender: "female" },
        VoiceMeta { id: "bm_george", lang: "en", name: "George (UK)", gender: "male" },
        VoiceMeta { id: "bm_daniel", lang: "en", name: "Daniel (UK)", gender: "male" },
        VoiceMeta { id: "bm_fred", lang: "en", name: "Fred (UK)", gender: "male" },
        VoiceMeta { id: "bm_leo", lang: "en", name: "Leo (UK)", gender: "male" },
        VoiceMeta { id: "bm_pierre", lang: "fr", name: "Pierre (FR)", gender: "male" },
    ]
}

/// The catalogue as a vector, in catalogue order.
pub fn catalogue() -> (v: Vec<VoiceMeta>)
    ensures
        v@ == voice_table(),
{
    vec![
        VoiceMeta { id: "en_US-amy-medium", lang: "en", name: "Amy", gender: "female" },
        VoiceMeta { id: "en_US-ryan-high", lang: "en", name: "Ryan", gender: "male" },
        VoiceMeta { id: "en_US-ryan-medium", lang: "en", name: "Ryan", gender: "male" },
        VoiceMeta { id: "en_GB-alan-low", lang: "en", name: "Alan", gender: "male" },
        VoiceMeta { id: "en_US-lessac-medium", lang: "en", name: "Lessac", gender: "female" },
        VoiceMeta { id: "en_US-lessac-high", lang: "en", name: "Lessac", gender: "female" },
        VoiceMeta { id: "en_GB-cori-high", lang: "en", name: "Cori", gender: "female" },
        VoiceMeta { id: "en_GB-northern_english_male-medium", lang: "en", name: "Northern", gender: "male" },
        VoiceMeta { id: "ar_JO-kareem-low", lang: "ar", name: "Kareem", gender: "male" },
        VoiceMeta { id: "ar_JO-kareem-medium", lang: "ar", name: "Kareem", gender: "male" },
        VoiceMeta { id: "ar_AE-emirati-female", lang: "ar", name: "Emirati", gender: "female" },
        VoiceMeta { id: "ar-zayd0-diacritized", lang: "ar", name: "Zayd", gender: "male" },
        VoiceMeta { id: "it_IT-riccardo-x_low", lang: "it", name: "Riccardo", gender: "male" },
        VoiceMeta { id: "it_IT-paola-medium", lang: "it", name: "Paola", gender: "female" },
        VoiceMeta { id: "fr_FR-siwis-low", lang: "fr", name: "Siwis", gender: "female" },
        VoiceMeta { id: "fr_FR-siwis-medium", lang: "fr", name: "Siwis", gender: "female" },
        VoiceMeta { id: "fr_FR-upmc-medium", lang: "fr", name: "UPMC", gender: "male" },
        VoiceMeta { id: "es_ES-mls_10246-low", lang: "es", name: "MLS", gender: "female" },
        VoiceMeta { id: "es_ES-carlfm-x_low", lang: "es", name: "Carlos", gender: "male" },
        VoiceMeta { id: "es_ES-davefx-medium", lang: "es", name: "Dave", gender: "male" },
        VoiceMeta { id: "de_DE-thorsten-medium", lang: "de", name: "Thorsten", gender: "male" },
        VoiceMeta { id: "de_DE-eva_k-x_low", lang: "de", name: "Eva", gender: "female" },
        VoiceMeta { id: "de_DE-thorsten-high", lang: "de", name: "Thorsten", gender: "male" },
        VoiceMeta { id: "ru_RU-irina-medium", lang: "ru", name: "Irina", gender: "female" },
        VoiceMeta { id: "ru_RU-ruslan-medium", lang: "ru", name: "Ruslan", gender: "male" },
        VoiceMeta { id: "ru_RU-denis-medium", lang: "ru", name: "Denis", gender: "male" },
        VoiceMeta { id: "hi_IN-pratham-medium", lang: "hi", name: "Pratham", gender: "male" },
        VoiceMeta { id: "hi_IN-priyamvada-medium", lang: "hi", name: "Priyamvada", gender: "female" },
        VoiceMeta { id: "tr_TR-dfki-medium", lang: "tr", name: "DFKI", gender: "female" },
        VoiceMeta { id: "pt_BR-faber-medium", lang: "pt", name: "Faber", gender: "male" },
        VoiceMeta { id: "af_heart", lang: "en", name: "Heart (Kokoro)", gender: "female" },
        VoiceMeta { id: "af_bella", lang: "en", name: "Bella (Kokoro)", gender: "female" },
        VoiceMeta { id: "af_sky", lang: "en", name: "Sky (Kokoro)", gender: "female" },
        VoiceMeta { id: "af_nova", lang: "en", name: "Nova (Kokoro)", gender: "female" },
        VoiceMeta { id: "af_sarah", lang: "en", name: "Sarah (Kokoro)", gender: "female" },
        VoiceMeta { id: "af_alloy", lang: "en", name: "Alloy (Kokoro)", gender: "female" },
        VoiceMeta { id: "af_nicole", lang: "en", name: "Nicole (Kokoro)", gender: "female" },
        VoiceMeta { id: "af_jessica", lang: "en", name: "Jessica (Kokoro)", gender: "female" },
        VoiceMeta { id: "af_river", lang: "en", name: "River (Kokoro)", gender: "female" },
        VoiceMeta { id: "af_aoede", lang: "en", name: "Aoede (Kokoro)", gender: "female" },
        VoiceMeta { id: "af_kore", lang: "en", name: "Kore (Kokoro)", gender: "female" },
        VoiceMeta { id: "am_adam", lang: "en", name: "Adam (Kokoro)", gender: "male" },
        VoiceMeta { id: "am_michael", lang: "en", name: "Michael (Kokoro)", gender: "male" },
        VoiceMeta { id: "am_onyx", lang: "en", name: "Onyx (Kokoro)", gender: "male" },
        VoiceMeta { id: "am_echo", lang: "en", name: "Echo (Kokoro)", gender: "male" },
        VoiceMeta { id: "am_eric", lang: "en", name: "Eric (Kokoro)", gender: "male" },
        VoiceMeta { id: "am_liam", lang: "en", name: "Liam (Kokoro)", gender: "male" },
        VoiceMeta { id: "am_puck", lang: "en", name: "Puck (Kokoro)", gender: "male" },
        VoiceMeta { id: "am_fenrir", lang: "en", name: "Fenrir (Kokoro)", gender: "male" },
        VoiceMeta { id: "am_santa", lang: "en", name: "Santa (Kokoro)", gender: "male" },
        VoiceMeta { id: "bf_emma", lang: "en", name: "Emma (UK)", gender: "female" },
        VoiceMeta { id: "bf_alice", lang: "en", name: "Alice (UK)", gender: "female" },
        VoiceMeta { id: "bf_isabella", lang: "en", name: "Isabella (UK)", gender: "female" },
        VoiceMeta { id: "bf_lily", lang: "en", name: "Lily (UK)", gender: "female" },
        VoiceMeta { id: "bm_george", lang: "en", name: "George (UK)", gender: "male" },
        VoiceMeta { id: "bm_daniel", lang: "en", name: "Daniel (UK)", gender: "male" },
        VoiceMeta { id: "bm_fred", lang: "en", name: "Fred (UK)", gender: "male" },
        VoiceMeta { id: "bm_leo", lang: "en", name: "Leo (UK)", gender: "male" },
        VoiceMeta { id: "bm_pierre", lang: "fr", name: "Pierre (FR)", gender: "male" },
    ]
}

/// Whether a voice is spoken in language `lang`.
pub open spec fn in_lang(lang: Seq<char>) -> spec_fn(VoiceMeta) -> bool {
    |v: VoiceMeta| v.lang@ == lang
}

/// Find a voice by id: the first catalogue entry with that id, if any.
pub fn find(id: &str) -> (r: Option<VoiceMeta>)
    ensures
        r is None <==> (forall|i: int|
            0 <= i < voice_table().len() ==> #[trigger] voice_table()[i].id@ != id@),
        r matches Some(v) ==> exists|i: int|
            0 <= i < voice_table().len() && voice_table()[i] == v && v.id@ == id@ && (forall|
                j: int,
            |
                0 <= j < i ==> #[trigger] voice_table()[j].id@ != id@),
{
    let all = catalogue();
    let mut k: usize = 0;
    while k < all.len()
        invariant
            all@ == voice_table(),
            k <= all.len(),
            forall|j: int| 0 <= j < k ==> #[trigger] voice_table()[j].id@ != id@,
        decreases all.len() - k,
    {
        if str_eq(all[k].id, id) {
            return Some(all[k]);
        }
        k = k + 1;
    }
    None
}

/// Voices for one language, in catalogue order.
pub fn for_lang(lang: &str) -> (r: Vec<VoiceMeta>)
    ensures
        r@ == voice_table().filter(in_lang(lang@)),
{
    let all = catalogue();
    let mut out: Vec<VoiceMeta> = Vec::new();
    let mut k: usize = 0;
    while k < all.len()
        invariant
            all@ == voice_table(),
            k <= all.len(),
            out@ == voice_table().take(k as int).filter(in_lang(lang@)),
        decreases all.len() - k,
    {
        proof {
            reveal_with_fuel(Seq::<_>::filter, 1);
            assert(voice_table().take(k + 1).drop_last() =~= voice_table().take(k as int));
        }
        if str_eq(all[k].lang, lang) {
            out.push(all[k]);
        }
        k = k + 1;
    }
    proof {
        assert(voice_table().take(all.len() as int) =~= voice_table());
    }
    out
}

/// All Arabic voices, in catalogue order.
pub fn arabic_voices() -> (r: Vec<VoiceMeta>)
    ensures
        r@ == voice_table().filter(in_lang("ar"@)),
{
    for_lang("ar")
}

/// The best (most natural) voice id per supported language, in table order.
pub open spec fn best_table() -> Seq<(&'static str, &'static str)> {
    seq![
        ("en", "en_US-ryan-high"),
        ("ar", "ar_JO-kareem-medium"),
        ("it", "it_IT-paola-medium"),
        ("fr", "fr_FR-siwis-medium"),
        ("es", "es_ES-davefx-medium"),
        ("de", "de_DE-thorsten-high"),
        ("ru", "ru_RU-irina-medium"),
        ("hi", "hi_IN-priyamvada-medium"),
        ("tr", "tr_TR-dfki-medium"),
        ("pt", "pt_BR-faber-medium"),
    ]
}

/// The best-voice table as a vector.
pub fn best_voice_per_lang() -> (v: Vec<(&'static str, &'static str)>)
    ensures
        v@ == best_table(),
{
    vec![
        ("en", "en_US-ryan-high"),
        ("ar", "ar_JO-kareem-medium"),
        ("it", "it_IT-paola-medium"),
        ("fr", "fr_FR-siwis-medium"),
        ("es", "es_ES-davefx-medium"),
        ("de", "de_DE-thorsten-high"),
        ("ru", "ru_RU-irina-medium"),
        ("hi", "hi_IN-priyamvada-medium"),
        ("tr", "tr_TR-dfki-medium"),
        ("pt", "pt_BR-faber-medium"),
    ]
}

/// The best voice id for a language, or the English default for a language
/// the table does not list.
pub open spec fn best_voice(lang: Seq<char>) -> Seq<char> {
    match lookup_pair(best_table(), lang) {
        Some(v) => v@,
        None => "en_US-amy-medium"@,
    }
}

/// Highest-quality natural voice for a language (falls back to English).
pub fn best_voice_for_lang(lang: &str) -> (r: &'static str)
    ensures
        r@ == best_voice(lang@),
{
    let table = best_voice_per_lang();
    match lookup_pair_exec(table.as_slice(), lang) {
        Some(v) => v,
        None => "en_US-amy-medium",
    }
}

/// The default voice for a language: its best voice.
pub fn default_for_lang(lang: &str) -> (r: &'static str)
    ensures
        r@ == best_voice(lang@),
{
    best_voice_for_lang(lang)
}

/// Every language's best voice, and the English fallback, is a catalogue
/// voice.
pub proof fn lemma_best_voice_in_catalogue(lang: Seq<char>)
    ensures
        exists|i: int|
            0 <= i < voice_table().len() && #[trigger] voice_table()[i].id@ == best_voice(lang),
{
    reveal_with_fuel(lookup_pair, 11);
    let b = best_voice(lang);
    if b == "en_US-ryan-high"@ {
        assert(voice_table()[1].id@ == b);
    } else if b == "ar_JO-kareem-medium"@ {
        assert(voice_table()[9].id@ == b);
    } else if b == "it_IT-paola-medium"@ {
        assert(voice_table()[13].id@ == b);
    } else if b == "fr_FR-siwis-medium"@ {
        assert(voice_table()[15].id@ == b);
    } else if b == "es_ES-davefx-medium"@ {
        assert(voice_table()[19].id@ == b);
    } else if b == "de_DE-thorsten-high"@ {
        assert(voice_table()[22].id@ == b);
    } else if b == "ru_RU-irina-medium"@ {
        assert(voice_table()[23].id@ == b);
    } else if b == "hi_IN-priyamvada-medium"@ {
        assert(voice_table()[27].id@ == b);
    } else if b == "tr_TR-dfki-medium"@ {
        assert(voice_table()[28].id@ == b);
    } else if b == "pt_BR-faber-medium"@ {
        assert(voice_table()[29].id@ == b);
    } else if b == "en_US-amy-medium"@ {
        assert(voice_table()[0].id@ == b);
    }
}

} // verus!
