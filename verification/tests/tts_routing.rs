use anubis_core::tts::kokoro::{kokoro_available, kokoro_voice};
use anubis_core::tts::router::{pick_engine, union_voices};
use anubis_core::tts::voices::{find, for_lang};

#[test]
fn kokoro_maps_catalogue_and_own_voices() {
    assert_eq!(kokoro_voice("en_US-amy-medium"), Some("af_heart"));
    assert_eq!(kokoro_voice("en_GB-cori-high"), Some("bf_emma"));
    assert_eq!(kokoro_voice("am_puck"), Some("am_puck"));
    assert_eq!(kokoro_voice("it_IT-paola-medium"), None);
    let ids: Vec<&str> = kokoro_available().iter().map(|v| v.id).collect();
    assert!(ids.contains(&"en_US-amy-medium"));
    assert!(ids.iter().all(|id| kokoro_voice(id).is_some()));
    assert!(ids.contains(&"af_heart"));
    assert!(!ids.contains(&"it_IT-paola-medium"));
}

#[test]
fn union_keeps_first_occurrence_of_each_id() {
    let en = for_lang("en");
    let it = for_lang("it");
    let lists = vec![it.clone(), en.clone(), it.clone()];
    let all = union_voices(&lists);
    assert_eq!(all.len(), it.len() + en.len());
    assert_eq!(all[0].id, it[0].id);
    assert_eq!(all[it.len()].id, en[0].id);
    assert!(union_voices(&vec![]).is_empty());
}

#[test]
fn engine_choice_prefers_the_engine_with_the_voice() {
    let amy = vec![find("en_US-amy-medium").unwrap()];
    let paola = vec![find("it_IT-paola-medium").unwrap()];
    let lists = vec![paola.clone(), amy.clone()];
    assert_eq!(pick_engine(&lists, "en_US-amy-medium").unwrap(), 1);
    assert_eq!(pick_engine(&lists, "it_IT-paola-medium").unwrap(), 0);
    assert_eq!(pick_engine(&lists, "unknown").unwrap(), 0);
    let e = pick_engine(&vec![], "en_US-amy-medium").unwrap_err();
    assert_eq!(e.message(), "TTS failed: no TTS engine configured");
}
