//! The transcription client's logic: what to send and what the sidecar's
//! reply means.
//!
//! The sidecar (whisper.cpp-compatible, on the machine) takes the WAV as a
//! multipart `file`, with an optional `language`, at
//! `{base}/audio/transcriptions`, and answers `{ "text": "..." }`.

use crate::error::AnubisError;
use crate::json::{deref_opt, get, json_document_of, json_parse, text, text_of, value_at_key, JsonValue};
use crate::text::{to_owned, trim, trimmed};
use vstd::prelude::*;

verus! {

/// `Ok` when transcription is configured, else the error saying it is not.
pub fn check_enabled(enabled: bool) -> (r: Result<(), AnubisError>)
    ensures
        enabled ==> r is Ok,
        !enabled ==> (r matches Err(AnubisError::Audio(m)) && m@ == "whisper not configured"@),
{
    if enabled {
        Ok(())
    } else {
        Err(AnubisError::Audio(to_owned("whisper not configured")))
    }
}

/// The `language` field to send: the language, unless absent or empty.
pub fn language_field(lang: Option<&str>) -> (r: Option<&str>)
    ensures
        match lang {
            Some(l) => if l@.len() > 0 {
                r == Some(l)
            } else {
                r is None
            },
            None => r is None,
        },
{
    match lang {
        Some(l) => if l.unicode_len() > 0 {
            Some(l)
        } else {
            None
        },
        None => None,
    }
}

/// What a reply document means: its `text` field, trimmed, unless the body
/// was not JSON or the text is missing or blank.
pub open spec fn transcript_in(doc: Option<JsonValue>) -> Result<Seq<char>, Seq<char>> {
    if doc is None {
        Err("whisper json: error decoding response body"@)
    } else {
        match text_of(value_at_key(doc, "text"@)) {
            Some(t) => if trimmed(t).len() > 0 {
                Ok(trimmed(t))
            } else {
                Err("whisper returned no text"@)
            },
            None => Err("whisper returned no text"@),
        }
    }
}

/// What a reply body means.
pub open spec fn transcript_of(body: Seq<u8>) -> Result<Seq<char>, Seq<char>> {
    transcript_in(json_document_of(body))
}

/// Read the transcript out of a parsed reply (`None` when the body was not
/// JSON).
pub fn transcript_from_document(doc: Option<&JsonValue>) -> (r: Result<String, AnubisError>)
    ensures
        match transcript_in(deref_opt(doc)) {
            Ok(t) => r matches Ok(s) && s@ == t,
            Err(m) => r matches Err(AnubisError::Audio(x)) && x@ == m,
        },
{
    if doc.is_none() {
        return Err(AnubisError::Audio(to_owned("whisper json: error decoding response body")));
    }
    match text(get(doc, "text")) {
        Some(t) => {
            let t = trim(t);
            if t.as_str().unicode_len() > 0 {
                Ok(t)
            } else {
                Err(AnubisError::Audio(to_owned("whisper returned no text")))
            }
        },
        None => Err(AnubisError::Audio(to_owned("whisper returned no text"))),
    }
}

/// Read the transcript out of a reply body.
pub fn transcript_from_body(body: &[u8]) -> (r: Result<String, AnubisError>)
    ensures
        match transcript_of(body@) {
            Ok(t) => r matches Ok(s) && s@ == t,
            Err(m) => r matches Err(AnubisError::Audio(x)) && x@ == m,
        },
{
    let doc = json_parse(body);
    transcript_from_document(doc.as_ref())
}

} // verus!
