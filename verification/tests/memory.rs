use anubis_core::memory::ConversationStore;

fn pair(a: &str, b: &str) -> (String, String) {
    (a.to_string(), b.to_string())
}

#[test]
fn separate_users_do_not_interfere() {
    let mut store = ConversationStore::new(12);
    store.push(1, "hi", "hello");
    store.push(2, "yo", "hey");
    assert_eq!(store.cached_history(1).unwrap().len(), 2);
    assert_eq!(store.cached_history(2).unwrap().len(), 2);
    assert_eq!(store.cached_history(1).unwrap().last().unwrap().1, "hello");
    assert_eq!(store.cached_history(2).unwrap().last().unwrap().1, "hey");
}

#[test]
fn bounds_history_to_window() {
    let mut store = ConversationStore::new(4);
    for _ in 0..5 {
        store.push(7, "u", "a");
    }
    // 5 pushes * 2 = 10 turns, trimmed to window 4.
    assert!(store.cached_history(7).unwrap().len() <= 4);
    assert_eq!(store.cached_history(7).unwrap().len(), 4);
}

#[test]
fn window_keeps_the_most_recent_turns() {
    let mut store = ConversationStore::new(3);
    store.push(1, "q1", "a1");
    store.push(1, "q2", "a2");
    assert_eq!(
        store.cached_history(1).unwrap(),
        vec![pair("assistant", "a1"), pair("user", "q2"), pair("assistant", "a2")]
    );
}

#[test]
fn window_is_at_least_one_exchange() {
    let mut store = ConversationStore::new(0);
    store.push(3, "q", "a");
    assert_eq!(store.cached_history(3).unwrap(), vec![pair("user", "q"), pair("assistant", "a")]);
}

#[test]
fn persists_across_store_instances() {
    let mut store = ConversationStore::new(12);
    let json = store.push(9, "persist", "me");
    assert_eq!(json, r#"[["user","persist"],["assistant","me"]]"#);
    let mut fresh = ConversationStore::new(12);
    assert!(fresh.cached_history(9).is_none());
    let loaded = fresh.load(9, &json);
    assert_eq!(loaded, vec![pair("user", "persist"), pair("assistant", "me")]);
    assert_eq!(fresh.cached_history(9).unwrap(), loaded);
}

#[test]
fn clear_empties_persisted_memory() {
    let mut store = ConversationStore::new(12);
    store.push(5, "a", "b");
    let json = store.clear(5);
    assert_eq!(json, "[]");
    assert!(store.cached_history(5).is_none());
    let mut fresh = ConversationStore::new(12);
    assert!(fresh.load(5, &json).is_empty());
}

#[test]
fn load_skips_malformed_items_and_trims_to_window() {
    let mut store = ConversationStore::new(2);
    let raw = r#"[["user","a"], 7, ["x"], ["assistant","b"], ["user", 3], ["user","c"]]"#;
    assert_eq!(store.load(1, raw), vec![pair("assistant", "b"), pair("user", "c")]);
    assert!(store.load(2, "not json").is_empty());
    assert!(store.load(3, r#"{"a":1}"#).is_empty());
}

#[test]
fn history_prefers_the_store_then_the_persisted_text() {
    let mut store = ConversationStore::new(12);
    assert!(store.history(4, None).is_none());
    let raw = r#"[["user","x"],["assistant","y"]]"#;
    assert_eq!(store.history(4, Some(raw)).unwrap(), vec![pair("user", "x"), pair("assistant", "y")]);
    // Held now: the persisted text is not read again.
    assert_eq!(store.history(4, Some("[]")).unwrap().len(), 2);
    store.push(4, "q", "a");
    assert_eq!(store.history(4, None).unwrap().len(), 4);
}
