use anubis_core::json::JsonValue;
use anubis_core::whisper::{check_enabled, language_field, transcript_from_body, transcript_from_document};

#[test]
fn transcript_is_trimmed_text() {
    assert_eq!(transcript_from_body(br#"{"text":"  hello there \n"}"#).unwrap(), "hello there");
}

#[test]
fn missing_or_blank_text_is_an_error() {
    for body in [&br#"{"text":"   "}"#[..], br#"{"other":1}"#, br#"{"text":5}"#, b"[]"] {
        assert_eq!(
            transcript_from_body(body).unwrap_err().message(),
            "audio processing failed: whisper returned no text"
        );
    }
    assert_eq!(
        transcript_from_body(b"oops").unwrap_err().message(),
        "audio processing failed: whisper json: error decoding response body"
    );
}

#[test]
fn language_and_enablement() {
    assert_eq!(language_field(Some("it")), Some("it"));
    assert_eq!(language_field(Some("")), None);
    assert_eq!(language_field(None), None);
    assert!(check_enabled(true).is_ok());
    assert_eq!(
        check_enabled(false).unwrap_err().message(),
        "audio processing failed: whisper not configured"
    );
}

#[test]
fn transcript_from_parsed_document() {
    let doc = JsonValue::Object(vec![("text".to_string(), JsonValue::Str(" hi ".to_string()))]);
    assert_eq!(transcript_from_document(Some(&doc)).unwrap(), "hi");
    let arr = JsonValue::Array(vec![JsonValue::Str("text".to_string())]);
    assert_eq!(
        transcript_from_document(Some(&arr)).unwrap_err().message(),
        "audio processing failed: whisper returned no text"
    );
    assert_eq!(
        transcript_from_document(None).unwrap_err().message(),
        "audio processing failed: whisper json: error decoding response body"
    );
}
