//! Configuration: defaults, environment overrides and validation.
//!
//! Configuration comes from `config.toml`, but every secret and endpoint can
//! be overridden (and preferably is) by an environment variable. Secrets are
//! never required to live in a file.

use crate::text::is_blank;
use crate::text::to_owned;
use crate::text::trim;
use crate::text::trimmed;
use vstd::prelude::*;

verus! {

/// Top-level configuration.
#[derive(Debug, Clone)]
pub struct Config {
    pub telegram: TelegramConfig,
    pub llm: LlmConfig,
    pub tts: TtsConfig,
    pub whisper: WhisperConfig,
    pub database: DatabaseConfig,
    pub limits: LimitsConfig,
    pub audio: AudioConfig,
}

/// Local Whisper transcription sidecar.
#[derive(Debug, Clone)]
pub struct WhisperConfig {
    pub enabled: bool,
    pub url: String,
}

/// Telegram transport.
#[derive(Debug, Clone)]
pub struct TelegramConfig {
    pub token: String,
    /// "poll" (default) or "webhook".
    pub mode: String,
    /// Only used when mode = "webhook".
    pub webhook_url: String,
    pub webhook_listen: String,
}

/// The local LLM endpoint.
#[derive(Debug, Clone)]
pub struct LlmConfig {
    pub base_url: String,
    pub model: String,
    pub max_tokens: u32,
    pub system_prompt: String,
    /// Bearer token for hosted OpenAI-compatible endpoints.
    pub api_key: String,
}

/// Text-to-speech engines.
#[derive(Debug, Clone)]
pub struct TtsConfig {
    pub piper_binary: String,
    pub voices_dir: String,
    pub kokoro_url: String,
}

/// The SQLite database.
#[derive(Debug, Clone)]
pub struct DatabaseConfig {
    pub path: String,
    pub pool_max: u32,
}

/// Usage limits.
#[derive(Debug, Clone)]
pub struct LimitsConfig {
    pub max_text_chars: usize,
    pub max_concurrent_synth: usize,
    /// Free text-to-speech requests per user per day.
    pub free_daily: i32,
}

/// Audio scratch output.
#[derive(Debug, Clone)]
pub struct AudioConfig {
    pub output_dir: String,
}

/// Whether the Telegram settings are the defaults.
pub open spec fn is_default_telegram(t: TelegramConfig) -> bool {
    &&& t.token@ == Seq::<char>::empty()
    &&& t.mode@ == "poll"@
    &&& t.webhook_url@ == Seq::<char>::empty()
    &&& t.webhook_listen@ == "127.0.0.1:8443"@
}

/// Whether the limits are the defaults.
pub open spec fn is_default_limits(l: LimitsConfig) -> bool {
    l.max_text_chars == 1000 && l.max_concurrent_synth == 2 && l.free_daily == 3
}

/// Whether a configuration is the built-in default one.
pub open spec fn is_default_config(c: Config) -> bool {
    &&& is_default_telegram(c.telegram)
    &&& c.llm.base_url@ == "http://127.0.0.1:8080"@
    &&& c.llm.model@ == "local"@
    &&& c.llm.max_tokens == 512
    &&& c.llm.api_key@ == Seq::<char>::empty()
    &&& c.llm.system_prompt@
        == "You are Noxis Core, the secure local assistant inside ANUBIS. Be concise."@
    &&& c.tts.piper_binary@ == "piper"@
    &&& c.tts.voices_dir@ == "./voices"@
    &&& c.tts.kokoro_url@ == "http://127.0.0.1:8880"@
    &&& !c.whisper.enabled
    &&& c.whisper.url@ == Seq::<char>::empty()
    &&& c.database.path@ == "./anubis.db"@
    &&& c.database.pool_max == 8
    &&& is_default_limits(c.limits)
    &&& c.audio.output_dir@ == "./audio_output"@
}

impl TelegramConfig {
    /// Long-polling with no token and the default webhook listen address.
    pub fn default_config() -> (t: Self)
        ensures
            is_default_telegram(t),
    {
        TelegramConfig {
            token: String::new(),
            mode: to_owned("poll"),
            webhook_url: String::new(),
            webhook_listen: to_owned("127.0.0.1:8443"),
        }
    }
}

impl LimitsConfig {
    /// 1000 characters per text, two concurrent syntheses, three free
    /// requests a day.
    pub fn default_config() -> (l: Self)
        ensures
            is_default_limits(l),
    {
        LimitsConfig { max_text_chars: 1000, max_concurrent_synth: 2, free_daily: 3 }
    }
}

impl Default for TelegramConfig {
    /// Long-polling with no token and the default webhook listen address.
    fn default() -> (t: Self)
        ensures
            is_default_telegram(t),
    {
        TelegramConfig::default_config()
    }
}

impl Default for LimitsConfig {
    /// 1000 characters per text, two concurrent syntheses, three free
    /// requests a day.
    fn default() -> (l: Self)
        ensures
            is_default_limits(l),
    {
        LimitsConfig::default_config()
    }
}

/// Values taken from the environment; `None` where a variable is unset.
#[derive(Debug, Clone)]
pub struct EnvOverrides {
    pub telegram_token: Option<String>,
    pub telegram_mode: Option<String>,
    pub webhook_url: Option<String>,
    pub webhook_listen: Option<String>,
    pub llm_url: Option<String>,
    pub llm_key: Option<String>,
    pub llm_model: Option<String>,
    pub kokoro_url: Option<String>,
    pub whisper_url: Option<String>,
}

/// The value an override leaves: the override when set, else the current one.
pub open spec fn overridden(cur: String, ov: Option<String>) -> Seq<char> {
    match ov {
        Some(v) => v@,
        None => cur@,
    }
}

fn apply(cur: &mut String, ov: &Option<String>)
    ensures
        final(cur)@ == overridden(*old(cur), *ov),
{
    match ov {
        Some(v) => {
            *cur = to_owned(v.as_str());
        },
        None => {},
    }
}

/// What loading leads to for a configuration whose overrides are applied:
/// refusal when the token is blank.
pub open spec fn token_missing(c: Config) -> bool {
    trimmed(c.telegram.token@).len() == 0
}

/// The message given when the token is missing.
pub open spec fn token_missing_message() -> Seq<char> {
    "Telegram token missing. Set ANUBIS_TELEGRAM_TOKEN (or config.toml telegram.token). Refusing to start with a hardcoded/empty token."@
}

/// Whether `after` is `before` with the environment overrides applied: each
/// set variable replaces its setting; a set Whisper URL is trimmed and
/// enables Whisper exactly when it is not empty; everything else is kept.
pub open spec fn overrides_applied(before: Config, env: EnvOverrides, after: Config) -> bool {
    &&& after.telegram.token@ == overridden(before.telegram.token, env.telegram_token)
    &&& after.telegram.mode@ == overridden(before.telegram.mode, env.telegram_mode)
    &&& after.telegram.webhook_url@ == overridden(
            before.telegram.webhook_url,
            env.webhook_url,
        )
    &&& after.telegram.webhook_listen@ == overridden(
            before.telegram.webhook_listen,
            env.webhook_listen,
        )
    &&& after.llm.base_url@ == overridden(before.llm.base_url, env.llm_url)
    &&& after.llm.api_key@ == overridden(before.llm.api_key, env.llm_key)
    &&& after.llm.model@ == overridden(before.llm.model, env.llm_model)
    &&& after.llm.max_tokens == before.llm.max_tokens
    &&& after.llm.system_prompt == before.llm.system_prompt
    &&& after.tts.kokoro_url@ == overridden(before.tts.kokoro_url, env.kokoro_url)
    &&& after.tts.piper_binary == before.tts.piper_binary
    &&& after.tts.voices_dir == before.tts.voices_dir
    &&& match env.whisper_url {
            Some(u) => after.whisper.url@ == trimmed(u@) && after.whisper.enabled
                == (trimmed(u@).len() > 0),
            None => after.whisper.url == before.whisper.url
                && after.whisper.enabled == before.whisper.enabled,
        }
    &&& after.database == before.database
    &&& after.limits == before.limits
    &&& after.audio == before.audio
}

/// Whether `base` is what loading starts from: the file's configuration, or
/// the defaults when there is no file.
pub open spec fn base_of(file: Option<Config>, base: Config) -> bool {
    match file {
        Some(f) => base == f,
        None => is_default_config(base),
    }
}

/// Whether `c` is a configuration loading can produce from the file and the
/// environment, before validation.
pub open spec fn loaded_from(file: Option<Config>, env: EnvOverrides, c: Config) -> bool {
    exists|base: Config| base_of(file, base) && overrides_applied(base, env, c)
}

impl Config {
    /// The built-in configuration used when no config file is present.
    pub fn defaults() -> (c: Self)
        ensures
            is_default_config(c),
    {
        Config {
            telegram: TelegramConfig::default_config(),
            llm: LlmConfig {
                base_url: to_owned("http://127.0.0.1:8080"),
                model: to_owned("local"),
                max_tokens: 512,
                api_key: String::new(),
                system_prompt: to_owned(
                    "You are Noxis Core, the secure local assistant inside ANUBIS. Be concise.",
                ),
            },
            tts: TtsConfig {
                piper_binary: to_owned("piper"),
                voices_dir: to_owned("./voices"),
                kokoro_url: to_owned("http://127.0.0.1:8880"),
            },
            whisper: WhisperConfig { enabled: false, url: String::new() },
            database: DatabaseConfig { path: to_owned("./anubis.db"), pool_max: 8 },
            limits: LimitsConfig::default_config(),
            audio: AudioConfig { output_dir: to_owned("./audio_output") },
        }
    }

    /// Apply environment overrides: each set variable replaces its setting;
    /// a set Whisper URL is trimmed and enables Whisper exactly when it is
    /// not empty. Settings without an override are unchanged.
    pub fn apply_overrides(&mut self, env: &EnvOverrides)
        ensures
            overrides_applied(*old(self), *env, *final(self)),
    {
        apply(&mut self.telegram.token, &env.telegram_token);
        apply(&mut self.telegram.mode, &env.telegram_mode);
        apply(&mut self.telegram.webhook_url, &env.webhook_url);
        apply(&mut self.telegram.webhook_listen, &env.webhook_listen);
        apply(&mut self.llm.base_url, &env.llm_url);
        apply(&mut self.llm.api_key, &env.llm_key);
        apply(&mut self.llm.model, &env.llm_model);
        apply(&mut self.tts.kokoro_url, &env.kokoro_url);
        match &env.whisper_url {
            Some(u) => {
                let t = trim(u.as_str());
                let enabled = t.as_str().unicode_len() != 0;
                self.whisper.url = t;
                self.whisper.enabled = enabled;
            },
            None => {},
        }
    }

    /// Refuse a configuration whose Telegram token is blank.
    pub fn validate(&self) -> (r: Result<(), String>)
        ensures
            r is Err <==> token_missing(*self),
            r matches Err(m) ==> m@ == token_missing_message(),
    {
        if is_blank(self.telegram.token.as_str()) {
            Err(
                to_owned(
                    "Telegram token missing. Set ANUBIS_TELEGRAM_TOKEN (or config.toml telegram.token). Refusing to start with a hardcoded/empty token.",
                ),
            )
        } else {
            Ok(())
        }
    }

    /// Build the effective configuration: the file's configuration (or the
    /// defaults when there is none), with the environment overrides applied,
    /// refused when the token is then blank.
    pub fn resolve(file: Option<Config>, env: &EnvOverrides) -> (r: Result<Config, String>)
        ensures
            r matches Ok(c) ==> loaded_from(file, *env, c) && !token_missing(c),
            r matches Err(m) ==> m@ == token_missing_message() && exists|c: Config|
                loaded_from(file, *env, c) && token_missing(c),
    {
        let mut cfg = match file {
            Some(c) => c,
            None => Config::defaults(),
        };
        let ghost base = cfg;
        cfg.apply_overrides(env);
        assert(loaded_from(file, *env, cfg)) by {
            assert(base_of(file, base) && overrides_applied(base, *env, cfg));
        }
        match cfg.validate() {
            Ok(()) => Ok(cfg),
            Err(m) => Err(m),
        }
    }
}

} // verus!
