use anubis_core::bot::keyboards::{lang_keyboard, main_menu, reply_voice_keyboard, voices_keyboard, Button};

fn texts(rows: &[Vec<Button>]) -> Vec<Vec<(String, String)>> {
    rows.iter()
        .map(|r| r.iter().map(|b| (b.label.clone(), b.data.clone())).collect())
        .collect()
}

#[test]
fn main_menu_layout() {
    let rows = texts(&main_menu("en"));
    let shape: Vec<usize> = rows.iter().map(|r| r.len()).collect();
    assert_eq!(shape, vec![1, 1, 2, 2, 2, 1]);
    let data: Vec<String> = rows.iter().flatten().map(|b| b.1.clone()).collect();
    assert_eq!(
        data,
        vec!["act:ask", "act:speak", "act:voices", "act:lang", "act:teacher", "act:help", "act:credits", "act:upgrade", "act:reset"]
    );
    assert_eq!(rows[0][0].0, anubis_core::i18n::get("en").btn_ask);
}

#[test]
fn language_picker_has_two_per_row() {
    let rows = texts(&lang_keyboard());
    assert_eq!(rows.len(), 5);
    assert!(rows.iter().all(|r| r.len() == 2));
    assert_eq!(rows[0][0], ("🇬🇧 English".to_string(), "lang:en".to_string()));
    assert_eq!(rows[0][1].1, "lang:ar");
}

#[test]
fn voice_picker_marks_the_active_voice() {
    let rows = texts(&voices_keyboard("it", "it_IT-paola-medium"));
    assert_eq!(rows.len(), 2);
    assert_eq!(rows[0][0], ("♂ Riccardo".to_string(), "voice:it_IT-riccardo-x_low".to_string()));
    assert_eq!(rows[0][1], ("♀ Paola ✅".to_string(), "voice:it_IT-paola-medium".to_string()));
    assert_eq!(rows[1], vec![("🔙".to_string(), "menu:back".to_string())]);
    let ar = texts(&voices_keyboard("ar", "none"));
    assert_eq!(ar.len(), 3);
    let none = texts(&voices_keyboard("xx", ""));
    assert_eq!(none, vec![vec![("🔙".to_string(), "menu:back".to_string())]]);
}

#[test]
fn reply_keyboard_offers_listening() {
    let rows = texts(&reply_voice_keyboard("fr"));
    assert_eq!(rows, vec![vec![(anubis_core::i18n::get("fr").listen_hint.to_string(), "listen:last".to_string())]]);
}
