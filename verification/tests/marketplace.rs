use anubis_core::marketplace::_voice_ids_exist;
use anubis_core::marketplace::pack_for_voice;
use anubis_core::marketplace::pack_voice;
use anubis_core::marketplace::packs;

#[test]
fn every_pack_voice_resolves() {
    assert!(matches!(_voice_ids_exist(), Ok(())));
}

#[test]
fn pack_voice_falls_back_to_first_lang() {
    assert_eq!(pack_voice("news", "de"), Some("en_US-amy-medium"));
    assert_eq!(pack_voice("arabic_elite", "ar"), Some("ar_AE-emirati-female"));
}

#[test]
fn unknown_pack_returns_none() {
    assert!(pack_voice("nope", "en").is_none());
}

#[test]
fn pack_voice_uses_language_entry() {
    assert_eq!(pack_voice("news", "fr"), Some("fr_FR-siwis-medium"));
    assert_eq!(pack_voice("companion", "es"), Some("es_ES-carlfm-x_low"));
    assert_eq!(pack_voice("amy", "ar"), Some("en_US-amy-medium"));
}

#[test]
fn pack_for_voice_finds_first_pack() {
    assert_eq!(pack_for_voice("en_US-amy-medium").map(|p| p.id), Some("amy"));
    assert_eq!(pack_for_voice("ar-zayd0-diacritized").map(|p| p.id), Some("companion"));
    assert_eq!(pack_for_voice("ar_AE-emirati-female").map(|p| p.id), Some("arabic_elite"));
    assert!(pack_for_voice("af_heart").is_none());
}

#[test]
fn catalogue_has_four_packs() {
    let ids: Vec<&str> = packs().iter().map(|p| p.id).collect();
    assert_eq!(ids, vec!["amy", "news", "companion", "arabic_elite"]);
}
