# anubis-core

The verified core of ANUBIS, a local-first voice-AI Telegram bot with a
streaming WebSocket transport. The library is written in Verus: every
function carries a `requires`/`ensures` contract that Verus proves.

Layout:

- `src/` — the library.
  - `ws/codec.rs` — the `[opcode][u32 BE length][payload]` frame codec, with
    the round-trip, partial-frame and pipelining laws; `ws/session.rs` — the
    per-connection protocol state machine.
  - `security/` — the LSB audio watermark (CRC-checked, voted over three
    copies; round-trip and robustness laws), sliding-window rate limiting,
    input sanitising (idempotent); the rate-limit law over all earlier
    admitted requests.
  - `noxis.rs` — language-model endpoint, prompts, reply extraction and the
    streamed-reply (`data:` line) decoder; `whisper.rs` — transcription
    replies.
  - `json.rs` — the library's JSON value type (parsed by `serde_json`) and
    the lookups made in it; `memory.rs` — bounded per-user conversation
    memory and its JSON persistence; `cache.rs` — the LRU audio cache.
  - `tts/` — voice catalogue (with the proof that its ids are distinct), presets, Kokoro voice map, engine routing;
    `marketplace.rs`, `i18n.rs`, `metrics.rs`, `config.rs`.
  - `bot/` — handler decisions (callbacks, messages, payments, teacher
    mode), keyboard layouts, statistics texts.
  - Calls into outside crates (`bytes`, `hound`, `serde_json`, `dashmap`,
    `lru`, `xxhash-rust`) go through small trusted wrappers whose contracts
    are stated in their doc comments.
- `tests/` — tests of the library.
- `app/` — the program around it: Telegram (`teloxide`), the WebSocket
  server (`axum`), SQLite, HTTP sidecars, `ffmpeg` and `piper` processes.

Dependencies: `takecell` is pinned to 0.1.1. Nothing here calls it; `teloxide`
depends on it, and its later releases need a newer compiler than the one
this project builds with.
