//! ANUBIS core library: the verified logic of a local-first voice-AI bot.
//!
//! The library holds the wire protocol of the real-time WebSocket transport,
//! the security controls (audio watermark, rate limiting, input sanitising),
//! the voice catalogue and voice-pack marketplace, the localized string
//! tables, conversation memory windowing, metrics rendering, configuration
//! defaults and overrides, and the decision logic behind the bot's handlers.
//! Everything that talks to the network, the disk or a subprocess lives in
//! the application crate around this library.

pub mod text;
pub mod json;
pub mod memory;
pub mod cache;
pub mod noxis;
pub mod whisper;
pub mod audio;
pub mod pairs;
pub mod tts;
pub mod marketplace;
pub mod i18n;
pub mod security;
pub mod metrics;
pub mod bot;
pub mod config;
pub mod worker_pool;
pub mod ws;
pub mod concurrent;
pub mod clock;
pub mod error;
