use anubis_core::json::JsonValue;
use anubis_core::config::LlmConfig;
use anubis_core::noxis::{
    answer_from_body, answer_from_document, choice_content_in, chat_url, llm_failure, normalize_base, NoxisCore, SseDecoder, SseEvent,
    TEACHER_PROMPT,
};

fn cfg(base: &str, key: &str, prompt: &str) -> LlmConfig {
    LlmConfig {
        base_url: base.to_string(),
        model: "local".to_string(),
        max_tokens: 512,
        system_prompt: prompt.to_string(),
        api_key: key.to_string(),
    }
}

#[test]
fn base_url_loses_trailing_slashes() {
    assert_eq!(normalize_base("http://h:8080///"), "http://h:8080");
    assert_eq!(normalize_base("http://h"), "http://h");
    assert_eq!(normalize_base("///"), "");
}

#[test]
fn chat_url_accepts_host_or_v1_base() {
    assert_eq!(chat_url("https://api.omniroute.ai"), "https://api.omniroute.ai/v1/chat/completions");
    assert_eq!(chat_url("https://api.omniroute.ai/v1"), "https://api.omniroute.ai/v1/chat/completions");
    assert_eq!(chat_url("https://api.omniroute.ai/v1/"), "https://api.omniroute.ai/v1/chat/completions");
    assert_eq!(chat_url("http://127.0.0.1:8080/"), "http://127.0.0.1:8080/v1/chat/completions");
}

#[test]
fn system_prompt_carries_language_and_mode() {
    let n = NoxisCore::new(cfg("http://h", "", "  Base prompt.  "));
    assert_eq!(
        n.system_for("it", false),
        "Base prompt.\nRespond in language code: it. Be concise and helpful."
    );
    let t = n.system_for("en", true);
    assert_eq!(t, format!("Base prompt.\nRespond in language code: en.\n\n{}", TEACHER_PROMPT));
    assert!(TEACHER_PROMPT.starts_with("You are a patient, expert teacher."));
    assert!(TEACHER_PROMPT.ends_with("guide them to learn."));
}

#[test]
fn messages_are_system_history_then_user() {
    let n = NoxisCore::new(cfg("http://h", "", "P"));
    let history = vec![
        ("user".to_string(), "q1".to_string()),
        ("assistant".to_string(), "a1".to_string()),
    ];
    let m = n.build_messages("q2", "fr", &history, false);
    assert_eq!(m.len(), 4);
    assert_eq!(m[0].0, "system");
    assert_eq!(m[0].1, n.system_for("fr", false));
    assert_eq!(m[1], history[0]);
    assert_eq!(m[2], history[1]);
    assert_eq!(m[3], ("user".to_string(), "q2".to_string()));
}

#[test]
fn enabled_only_with_a_base_url_and_bearer_only_with_a_key() {
    let off = NoxisCore::new(cfg("   ", "", "P"));
    assert!(!off.enabled());
    let e = off.check_enabled().unwrap_err();
    assert_eq!(e.message(), "LLM (Noxis Core) failed: Noxis Core LLM URL not configured");
    assert_eq!(off.bearer(), None);
    let on = NoxisCore::new(cfg("http://h/v1", "  sk-1 ", "P"));
    assert!(on.enabled());
    assert!(on.check_enabled().is_ok());
    assert_eq!(on.bearer(), Some("sk-1".to_string()));
    assert_eq!(on.endpoint(), "http://h/v1/chat/completions");
    assert_eq!(on.model(), ("local", 512));
}

#[test]
fn answer_is_the_first_choice_content() {
    let body = br#"{"choices":[{"message":{"role":"assistant","content":"Ciao!"}}]}"#;
    assert_eq!(answer_from_body(body).unwrap(), "Ciao!");
    let blank = br#"{"choices":[{"message":{"content":"  "}}]}"#;
    assert_eq!(
        answer_from_body(blank).unwrap_err().message(),
        "LLM (Noxis Core) failed: empty response from brain"
    );
    let missing = br#"{"choices":[]}"#;
    assert_eq!(
        answer_from_body(missing).unwrap_err().message(),
        "LLM (Noxis Core) failed: empty response from brain"
    );
    assert_eq!(
        answer_from_body(b"<html>").unwrap_err().message(),
        "LLM (Noxis Core) failed: json: error decoding response body"
    );
}

#[test]
fn failures_name_their_stage() {
    assert_eq!(
        llm_failure("server 500 Internal Server Error", "oops").message(),
        "LLM (Noxis Core) failed: server 500 Internal Server Error: oops"
    );
}

fn delta(s: &str) -> String {
    format!("data: {{\"choices\":[{{\"delta\":{{\"content\":\"{}\"}}}}]}}\n\n", s)
}

fn drain(d: &mut SseDecoder) -> (Vec<String>, bool) {
    let mut out = Vec::new();
    loop {
        match d.next_event() {
            SseEvent::NeedMore => return (out, false),
            SseEvent::Skip => {}
            SseEvent::Delta(x) => out.push(x),
            SseEvent::Done => return (out, true),
        }
    }
}

#[test]
fn stream_decoder_joins_deltas_across_chunks() {
    let mut d = SseDecoder::new();
    let all = format!("{}: keep-alive\n{}data: [DONE]\n", delta("Hel"), delta("lo"));
    let bytes = all.as_bytes();
    d.push_chunk(&bytes[..10]);
    assert_eq!(drain(&mut d), (vec![], false));
    d.push_chunk(&bytes[10..]);
    let (pieces, done) = drain(&mut d);
    assert_eq!(pieces, vec!["Hel".to_string(), "lo".to_string()]);
    assert!(done);
    assert_eq!(d.finish().unwrap(), "Hello");
}

#[test]
fn stream_without_text_is_an_error() {
    let mut d = SseDecoder::new();
    d.push_chunk(format!("{}data: {{\"choices\":[{{\"delta\":{{}}}}]}}\ndata:data: [DONE]\n", delta("")).as_bytes());
    let (pieces, done) = drain(&mut d);
    assert!(pieces.is_empty());
    assert!(done);
    assert_eq!(
        d.finish().unwrap_err().message(),
        "LLM (Noxis Core) failed: empty response from brain"
    );
}

#[test]
fn stream_ends_without_marker() {
    let mut d = SseDecoder::new();
    d.push_chunk(delta(" ok ").as_bytes());
    d.push_chunk(b"data: {\"choices\":[{\"delta\":{\"content\":\"partial");
    let (pieces, done) = drain(&mut d);
    assert_eq!(pieces, vec![" ok ".to_string()]);
    assert!(!done);
    assert_eq!(d.finish().unwrap(), " ok ");
}

#[test]
fn stream_decoder_keeps_characters_split_across_chunks() {
    let all = format!("{}{}data: [DONE]\n", delta("caff\u{e8}"), delta(" \u{1f600}!"));
    let bytes = all.as_bytes();
    let mut whole = SseDecoder::new();
    whole.push_chunk(bytes);
    let expected = drain(&mut whole);
    assert_eq!(expected, (vec!["caff\u{e8}".to_string(), " \u{1f600}!".to_string()], true));
    for cut in 1..bytes.len() {
        let mut d = SseDecoder::new();
        d.push_chunk(&bytes[..cut]);
        let (mut pieces, mut done) = drain(&mut d);
        d.push_chunk(&bytes[cut..]);
        let (more, done2) = drain(&mut d);
        pieces.extend(more);
        done = done || done2;
        assert_eq!((pieces, done), expected.clone(), "cut at {}", cut);
    }
}

#[test]
fn answer_from_document_reads_message_content() {
    let doc = JsonValue::Object(vec![(
        "choices".to_string(),
        JsonValue::Array(vec![JsonValue::Object(vec![(
            "message".to_string(),
            JsonValue::Object(vec![("content".to_string(), JsonValue::Str("ciao".to_string()))]),
        )])]),
    )]);
    assert_eq!(answer_from_document(Some(&doc)).unwrap(), "ciao");
    assert_eq!(
        answer_from_document(None).unwrap_err().message(),
        "LLM (Noxis Core) failed: json: error decoding response body"
    );
    let number = JsonValue::Object(vec![("choices".to_string(), JsonValue::Number("1".to_string()))]);
    assert_eq!(
        answer_from_document(Some(&number)).unwrap_err().message(),
        "LLM (Noxis Core) failed: empty response from brain"
    );
    assert_eq!(choice_content_in(Some(&doc), "message"), Some("ciao"));
    assert_eq!(choice_content_in(Some(&doc), "delta"), None);
}
