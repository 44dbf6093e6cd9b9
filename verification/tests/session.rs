use anubis_core::ws::session::{connection_scope, process_frame, speaks_reply, Session, WsAction};
use anubis_core::ws::DEFAULT_PATH;

fn error_of(a: &WsAction) -> Option<(u16, &'static str)> {
    match a {
        WsAction::Error { code, message } => Some((*code, *message)),
        _ => None,
    }
}

#[test]
fn new_session_is_english_and_not_greeted() {
    let s = Session::new(0);
    assert!(!s.authed);
    assert_eq!(s.lang, "en");
    assert_eq!(s.voice_id, "en_US-ryan-high");
    assert_eq!(DEFAULT_PATH, "/ws");
}

#[test]
fn hello_without_required_token_authenticates_and_applies_settings() {
    let mut s = Session::new(0);
    let a = process_frame(&mut s, None, false, 1000, 0x01, br#"{"lang":"it","voice":"it_IT-paola-medium"}"#);
    assert!(matches!(a, WsAction::HelloAck));
    assert!(s.authed);
    assert_eq!(s.lang, "it");
    assert_eq!(s.voice_id, "it_IT-paola-medium");
}

#[test]
fn hello_with_bad_token_is_refused() {
    let mut s = Session::new(0);
    let a = process_frame(&mut s, Some("secret"), false, 1000, 0x01, br#"{"token":"nope","lang":"fr"}"#);
    assert_eq!(error_of(&a), Some((401, "invalid token")));
    assert!(!s.authed);
    assert_eq!(s.lang, "en");
    // A missing token counts as empty.
    let a = process_frame(&mut s, Some("secret"), false, 1000, 0x01, b"not json");
    assert_eq!(error_of(&a), Some((401, "invalid token")));
    let a = process_frame(&mut s, Some("secret"), false, 1000, 0x01, br#"{"token":"secret"}"#);
    assert!(matches!(a, WsAction::HelloAck));
    assert!(s.authed);
}

#[test]
fn hello_with_invalid_json_still_authenticates_without_token() {
    let mut s = Session::new(0);
    let a = process_frame(&mut s, None, false, 1000, 0x01, b"\xff\xfe");
    assert!(matches!(a, WsAction::HelloAck));
    assert!(s.authed);
    assert_eq!(s.lang, "en");
}

#[test]
fn text_needs_hello_valid_utf8_and_content() {
    let mut s = Session::new(0);
    let a = process_frame(&mut s, None, false, 1000, 0x02, b"hello");
    assert_eq!(error_of(&a), Some((403, "send Hello first")));
    process_frame(&mut s, None, false, 1000, 0x01, b"{}");
    let a = process_frame(&mut s, None, false, 1000, 0x02, b"\xc3\x28");
    assert_eq!(error_of(&a), Some((400, "invalid UTF-8")));
    let a = process_frame(&mut s, None, false, 1000, 0x02, b" \t\n ");
    assert_eq!(error_of(&a), Some((400, "empty text")));
    match process_frame(&mut s, None, false, 1000, 0x02, "  ciao à tutti \n".as_bytes()) {
        WsAction::Ask { text, scope } => {
            assert_eq!(text, "ciao à tutti");
            assert_eq!(scope, -1);
        }
        other => panic!("unexpected {:?}", other),
    }
}

#[test]
fn voice_depends_on_whisper() {
    let mut s = Session::new(0);
    let a = process_frame(&mut s, None, false, 1000, 0x03, b"RIFF");
    assert_eq!(error_of(&a), Some((501, "whisper not configured")));
    let a = process_frame(&mut s, None, true, 1000, 0x03, b"RIFF");
    assert!(matches!(a, WsAction::Transcribe));
}

#[test]
fn config_updates_settings_or_rejects_bad_json() {
    let mut s = Session::new(0);
    let a = process_frame(&mut s, None, false, 1000, 0x04, b"{lang:");
    assert_eq!(error_of(&a), Some((400, "invalid JSON")));
    match process_frame(&mut s, None, false, 1000, 0x04, br#"{"lang":"de","voice":7}"#) {
        WsAction::Meta { voice, lang } => {
            assert_eq!(lang, "de");
            assert_eq!(voice, "en_US-ryan-high");
        }
        other => panic!("unexpected {:?}", other),
    }
    assert_eq!(s.lang, "de");
    assert!(!s.authed);
}

#[test]
fn ping_history_and_unknown_opcodes() {
    let mut s = Session::new(0);
    assert!(matches!(process_frame(&mut s, None, false, 1000, 0x05, b""), WsAction::Pong));
    assert!(matches!(process_frame(&mut s, None, false, 1000, 0x06, b""), WsAction::SendHistory { scope: -1 }));
    let a = process_frame(&mut s, None, false, 1000, 0x07, b"");
    assert_eq!(error_of(&a), Some((400, "unknown opcode")));
    let a = process_frame(&mut s, None, false, 1000, 0x00, b"");
    assert_eq!(error_of(&a), Some((400, "unknown opcode")));
}

#[test]
fn text_is_sanitised_and_bounded() {
    let mut s = Session::new(0);
    process_frame(&mut s, None, false, 4, 0x01, b"{}");
    match process_frame(&mut s, None, false, 4, 0x02, b"a\x07bc\x1bd") {
        WsAction::Ask { text, .. } => assert_eq!(text, "abcd"),
        other => panic!("unexpected {:?}", other),
    }
    let a = process_frame(&mut s, None, false, 4, 0x02, b"abcde");
    assert_eq!(error_of(&a), Some((413, "text too long")));
}

#[test]
fn reply_is_spoken_only_with_a_catalogue_voice() {
    let mut s = Session::new(0);
    assert!(speaks_reply(&s));
    s.voice_id = "no-such-voice".to_string();
    assert!(!speaks_reply(&s));
    s.voice_id = "af_heart".to_string();
    assert!(speaks_reply(&s));
}

#[test]
fn each_connection_has_its_own_memory_scope() {
    assert_eq!(connection_scope(0), -1);
    assert_eq!(connection_scope(41), -42);
    let mut a = Session::new(3);
    let mut b = Session::new(4);
    process_frame(&mut a, None, false, 1000, 0x01, b"{}");
    process_frame(&mut b, None, false, 1000, 0x01, b"{}");
    let qa = process_frame(&mut a, None, false, 1000, 0x02, b"x");
    let qb = process_frame(&mut b, None, false, 1000, 0x02, b"z");
    match (qa, qb) {
        (WsAction::Ask { scope: sa, .. }, WsAction::Ask { scope: sb, .. }) => {
            assert_eq!((sa, sb), (-4, -5));
        }
        other => panic!("unexpected {:?}", other),
    }
    assert!(matches!(process_frame(&mut b, None, false, 1000, 0x06, b""), WsAction::SendHistory { scope: -5 }));
}
