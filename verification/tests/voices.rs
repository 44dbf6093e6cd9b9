use anubis_core::tts::presets::presets;
use anubis_core::tts::voices::arabic_voices;
use anubis_core::tts::voices::best_voice_for_lang;
use anubis_core::tts::voices::best_voice_per_lang;
use anubis_core::tts::voices::catalogue;
use anubis_core::tts::voices::default_for_lang;
use anubis_core::tts::voices::find;
use anubis_core::tts::voices::for_lang;

#[test]
fn arabic_has_real_voices() {
    let ar = arabic_voices();
    assert!(ar.len() >= 2, "expected >=2 Arabic voices, got {}", ar.len());
    let ids: Vec<&str> = ar.iter().map(|v| v.id).collect();
    assert!(ids.contains(&"ar_JO-kareem-low"));
    assert!(ids.contains(&"ar_JO-kareem-medium"));
    assert!(ar.iter().all(|v| !v.id.is_empty() && !v.name.is_empty()));
}

#[test]
fn default_falls_back_to_english() {
    assert_eq!(default_for_lang("zz"), "en_US-amy-medium");
    assert!(find(default_for_lang("ar")).is_some());
    assert!(find(default_for_lang("fr")).is_some());
}

#[test]
fn every_voice_id_is_unique() {
    let mut seen = std::collections::HashSet::new();
    for v in catalogue() {
        assert!(seen.insert(v.id), "duplicate voice id: {}", v.id);
    }
}

#[test]
fn best_voice_per_lang_resolves_to_real_voice() {
    for (lang, _) in best_voice_per_lang() {
        let best = best_voice_for_lang(lang);
        assert!(find(best).is_some(), "best voice {best} for lang {lang} is not in catalogue");
    }
}

#[test]
fn italian_has_female_and_male() {
    let it = for_lang("it");
    assert!(it.iter().any(|v| v.gender == "female"));
    assert!(it.iter().any(|v| v.gender == "male"));
    assert!(it.iter().any(|v| v.id.contains("riccardo")));
    assert!(it.iter().any(|v| v.id.contains("paola")));
}

#[test]
fn best_voice_table_values() {
    assert_eq!(best_voice_for_lang("en"), "en_US-ryan-high");
    assert_eq!(best_voice_for_lang("de"), "de_DE-thorsten-high");
    assert_eq!(best_voice_for_lang("pt"), "pt_BR-faber-medium");
    assert_eq!(best_voice_for_lang(""), "en_US-amy-medium");
}

#[test]
fn find_returns_catalogue_entry() {
    let v = find("bm_pierre").unwrap();
    assert_eq!(v.lang, "fr");
    assert_eq!(v.name, "Pierre (FR)");
    assert_eq!(v.gender, "male");
    assert!(find("it_federico-medium").is_none());
    assert!(find("").is_none());
}

#[test]
fn for_lang_keeps_catalogue_order_and_unknown_is_empty() {
    let ids: Vec<&str> = for_lang("it").iter().map(|v| v.id).collect();
    assert_eq!(ids, vec!["it_IT-riccardo-x_low", "it_IT-paola-medium"]);
    assert!(for_lang("xx").is_empty());
    assert_eq!(catalogue().len(), 59);
}

#[test]
fn presets_listed_in_order() {
    let p = presets();
    assert_eq!(p.len(), 8);
    assert_eq!(p[0].voice_id, "en_US-amy-medium");
    assert_eq!(p[7].name, "Irinia (RU)");
}
