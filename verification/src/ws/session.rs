//! The per-connection decisions of the WebSocket transport.
//!
//! Each decoded frame moves the session (handshake state, language, voice)
//! and names one action for the transport to carry out: an error frame, the
//! handshake acknowledgement, a question for the language model, a
//! transcription, a settings echo, a pong, or the history.

use crate::json::{json_parses, json_str_field, json_str_field_of, json_valid};
use crate::text::str_eq;
use crate::text::to_owned;
use crate::tts::voices::{best_voice, default_for_lang, find, voice_table};
use crate::ws::codec::{opcode_of, OpCode};
use crate::security::sanitize::{sanitize_text, sanitized};
use vstd::prelude::*;
use vstd::utf8::{decode_utf8, valid_utf8};

verus! {

/// The memory scope of a WebSocket connection: the id under which its
/// conversation is kept. Connections are numbered by the transport; each
/// gets a negative id of its own, so no two connections share a history and
/// none shares one with a Telegram user (whose ids are positive).
pub open spec fn scope_of(connection: u64) -> int {
    -1 - connection
}

/// The memory scope of connection number `connection`.
pub fn connection_scope(connection: u64) -> (r: i64)
    requires
        connection < 0x8000_0000_0000_0000,
    ensures
        r == scope_of(connection),
{
    -1 - (connection as i64)
}

/// Connection scopes are private: different connections have different
/// scopes, and every scope is negative, apart from any Telegram user id.
pub proof fn lemma_scopes_private(a: u64, b: u64)
    ensures
        a != b ==> scope_of(a) != scope_of(b),
        scope_of(a) < 0,
{
}

/// Per-connection session state.
pub struct Session {
    pub authed: bool,
    pub lang: String,
    pub voice_id: String,
    /// The connection's memory scope.
    pub scope: i64,
}

impl Session {
    /// A fresh connection: not yet greeted, English, the English default
    /// voice, with the memory scope of connection number `connection`.
    pub fn new(connection: u64) -> (s: Self)
        requires
            connection < 0x8000_0000_0000_0000,
        ensures
            !s.authed,
            s.lang@ == "en"@,
            s.voice_id@ == best_voice("en"@),
            s.scope == scope_of(connection),
    {
        let lang = "en";
        let voice = default_for_lang(lang);
        Session {
            authed: false,
            lang: to_owned(lang),
            voice_id: to_owned(voice),
            scope: connection_scope(connection),
        }
    }
}

/// What the transport does after a frame.
#[derive(Debug)]
pub enum WsAction {
    /// Send an `Error` frame with this code and message.
    Error { code: u16, message: &'static str },
    /// Send the handshake acknowledgement.
    HelloAck,
    /// Ask the language model this (sanitised, non-empty) text, with the
    /// history kept under `scope`, and store the exchange there.
    Ask { text: String, scope: i64 },
    /// Transcribe the frame's audio.
    Transcribe,
    /// Echo the session's voice and language in a `Meta` frame.
    Meta { voice: String, lang: String },
    /// Answer a ping.
    Pong,
    /// Send the conversation history kept under `scope`.
    SendHistory { scope: i64 },
}

/// `std::str::from_utf8`: the bytes as text exactly when they are valid
/// UTF-8, as vstd defines it, decoded as vstd decodes them.
#[verifier::external_body]
fn utf8_str(bytes: &[u8]) -> (r: Option<&str>)
    ensures
        r is Some <==> valid_utf8(bytes@),
        r matches Some(s) ==> s@ == decode_utf8(bytes@),
{
    std::str::from_utf8(bytes).ok()
}

/// A string field of a JSON payload, or `fallback` when it has none.
pub open spec fn field_or(payload: Seq<u8>, key: Seq<char>, fallback: Seq<char>) -> Seq<char> {
    match json_str_field_of(payload, key) {
        Some(v) => v,
        None => fallback,
    }
}

/// Whether a `Hello` payload passes the token check: there is no required
/// token, or the payload's `token` field (empty when absent) equals it.
pub open spec fn token_ok(required: Option<Seq<char>>, payload: Seq<u8>) -> bool {
    match required {
        None => true,
        Some(t) => t == field_or(payload, "token"@, Seq::empty()),
    }
}

/// Whether an action is the error frame with this code and message.
pub open spec fn is_error(a: WsAction, code: u16, message: Seq<char>) -> bool {
    a matches WsAction::Error { code: c, message: m } && c == code && m@ == message
}

/// The session keeps its language and voice.
pub open spec fn same_settings(a: Session, b: Session) -> bool {
    a.lang@ == b.lang@ && a.voice_id@ == b.voice_id@
}

fn set_field(payload: &[u8], key: &str, slot: &mut String)
    ensures
        final(slot)@ == field_or(payload@, key@, old(slot)@),
{
    if let Some(v) = json_str_field(payload, key) {
        *slot = v;
    }
}

/// Decide what a frame does to the session and what the transport sends.
///
/// `auth_token` is the token clients must present in `Hello`, if any;
/// `whisper_enabled` says whether transcription is configured. The text of
/// a `Text` frame is sanitised, and refused when it is longer than
/// `max_text_chars` characters. Frames other than `Hello` and `Text` are
/// served before the handshake too.
pub fn process_frame(
    session: &mut Session,
    auth_token: Option<&str>,
    whisper_enabled: bool,
    max_text_chars: usize,
    op: u8,
    payload: &[u8],
) -> (r: WsAction)
    ensures
        match opcode_of(op) {
            None => is_error(r, 400, "unknown opcode"@) && *final(session) == *old(session),
            Some(OpCode::Hello) => if !token_ok(
                match auth_token {
                    Some(t) => Some(t@),
                    None => None,
                },
                payload@,
            ) {
                is_error(r, 401, "invalid token"@) && *final(session) == *old(session)
            } else {
                r is HelloAck && final(session).authed && final(session).scope == old(session).scope
                    && final(session).lang@ == field_or(
                    payload@,
                    "lang"@,
                    old(session).lang@,
                ) && final(session).voice_id@ == field_or(
                    payload@,
                    "voice"@,
                    old(session).voice_id@,
                )
            },
            Some(OpCode::Text) => *final(session) == *old(session) && if !old(session).authed {
                is_error(r, 403, "send Hello first"@)
            } else if !valid_utf8(payload@) {
                is_error(r, 400, "invalid UTF-8"@)
            } else if sanitized(decode_utf8(payload@)).len() == 0 {
                is_error(r, 400, "empty text"@)
            } else if sanitized(decode_utf8(payload@)).len() > max_text_chars {
                is_error(r, 413, "text too long"@)
            } else {
                (r matches WsAction::Ask { text, scope } && text@ == sanitized(decode_utf8(payload@))
                    && scope == old(session).scope)
            },
            Some(OpCode::Voice) => *final(session) == *old(session) && if !whisper_enabled {
                is_error(r, 501, "whisper not configured"@)
            } else {
                r is Transcribe
            },
            Some(OpCode::Config) => if !json_parses(payload@) {
                is_error(r, 400, "invalid JSON"@) && *final(session) == *old(session)
            } else {
                final(session).authed == old(session).authed && final(session).scope == old(session).scope && final(session).lang@ == field_or(
                    payload@,
                    "lang"@,
                    old(session).lang@,
                ) && final(session).voice_id@ == field_or(
                    payload@,
                    "voice"@,
                    old(session).voice_id@,
                ) && (r matches WsAction::Meta { voice, lang } && voice@ == final(session).voice_id@
                    && lang@ == final(session).lang@)
            },
            Some(OpCode::Ping) => r is Pong && *final(session) == *old(session),
            Some(OpCode::History) => (r matches WsAction::SendHistory { scope } && scope == old(session).scope) && *final(session) == *old(session),
        },
{
    let code = match OpCode::from_byte(op) {
        Some(c) => c,
        None => return WsAction::Error { code: 400, message: "unknown opcode" },
    };
    match code {
        OpCode::Hello => {
            if let Some(required) = auth_token {
                let provided = match json_str_field(payload, "token") {
                    Some(t) => t,
                    None => String::new(),
                };
                if !str_eq(required, provided.as_str()) {
                    return WsAction::Error { code: 401, message: "invalid token" };
                }
            }
            session.authed = true;
            set_field(payload, "lang", &mut session.lang);
            set_field(payload, "voice", &mut session.voice_id);
            WsAction::HelloAck
        },
        OpCode::Text => {
            if !session.authed {
                return WsAction::Error { code: 403, message: "send Hello first" };
            }
            let raw = match utf8_str(payload) {
                Some(t) => t,
                None => return WsAction::Error { code: 400, message: "invalid UTF-8" },
            };
            let text = sanitize_text(raw);
            let n = text.as_str().unicode_len();
            if n == 0 {
                return WsAction::Error { code: 400, message: "empty text" };
            }
            if n > max_text_chars {
                return WsAction::Error { code: 413, message: "text too long" };
            }
            WsAction::Ask { text, scope: session.scope }
        },
        OpCode::Voice => {
            if !whisper_enabled {
                return WsAction::Error { code: 501, message: "whisper not configured" };
            }
            WsAction::Transcribe
        },
        OpCode::Config => {
            if !json_valid(payload) {
                return WsAction::Error { code: 400, message: "invalid JSON" };
            }
            set_field(payload, "lang", &mut session.lang);
            set_field(payload, "voice", &mut session.voice_id);
            WsAction::Meta { voice: session.voice_id.clone(), lang: session.lang.clone() }
        },
        OpCode::Ping => WsAction::Pong,
        OpCode::History => WsAction::SendHistory { scope: session.scope },
    }
}

/// Whether the reply is also spoken: the session's voice is a catalogue
/// voice.
pub fn speaks_reply(session: &Session) -> (r: bool)
    ensures
        r <==> exists|i: int|
            0 <= i < voice_table().len() && #[trigger] voice_table()[i].id@ == session.voice_id@,
{
    find(session.voice_id.as_str()).is_some()
}

} // verus!
