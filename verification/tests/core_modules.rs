use anubis_core::bot::logic::FREE_DAILY_DEFAULT;
use anubis_core::json::{at, json_str_field, json_valid, text, JsonValue};
use anubis_core::bot::stats::{
    format_admin_stats, format_daily_active, format_user_list, format_user_stats, AdminStats,
    TopUser, UserEntry, UserStats,
};
use anubis_core::config::{Config, EnvOverrides, LimitsConfig, TelegramConfig};
use anubis_core::error::AnubisError;
use anubis_core::i18n::{get, languages};
use anubis_core::metrics::{all_counters, Metrics};
use anubis_core::security::ratelimit::{RateKind, RateLimiter, SPEAK_WINDOW_NANOS};
use anubis_core::security::sanitize_text;

fn no_env() -> EnvOverrides {
    EnvOverrides {
        telegram_token: None,
        telegram_mode: None,
        webhook_url: None,
        webhook_listen: None,
        llm_url: None,
        llm_key: None,
        llm_model: None,
        kokoro_url: None,
        whisper_url: None,
    }
}

#[test]
fn metrics_count_and_render() {
    let mut m = Metrics::new();
    m.inc("asks_total");
    m.inc("asks_total");
    m.inc("no_such_counter");
    m.add_synth_time(2500);
    let text = m.render_with_uptime(42);
    assert!(text.starts_with(
        "# HELP anubis_uptime_seconds Process uptime since start.\n# TYPE anubis_uptime_seconds counter\nanubis_uptime_seconds 42\n# HELP anubis_last_synth_ms Last synthesis duration in milliseconds.\nanubis_last_synth_ms 2500\n"
    ));
    assert!(text.contains("# TYPE anubis_asks_total counter\nanubis_asks_total 2\n"));
    assert!(text.contains("anubis_messages_total 0\n"));
    assert!(!text.contains("no_such_counter"));
    assert_eq!(text.matches("# TYPE anubis_").count(), all_counters().len() + 1);
    assert!(m.render().contains("anubis_asks_total 2\n"));
}

#[test]
fn rate_limit_sliding_window() {
    let mut r = RateLimiter::new(2, 0);
    assert!(r.check_at(1, RateKind::Speak, 0));
    assert!(r.check_at(1, RateKind::Speak, 10));
    assert!(!r.check_at(1, RateKind::Speak, 20));
    // Another user and another kind are counted apart.
    assert!(r.check_at(2, RateKind::Speak, 20));
    assert!(r.check_at(1, RateKind::Clone, 20));
    assert!(!r.check_at(1, RateKind::Clone, 30));
    // Once the first request is older than the window, one more fits.
    assert!(!r.check_at(1, RateKind::Speak, SPEAK_WINDOW_NANOS));
    assert!(r.check_at(1, RateKind::Speak, SPEAK_WINDOW_NANOS + 1));
    assert!(r.check(3, RateKind::Speak));
}

#[test]
fn sanitizing_drops_controls_but_keeps_newlines() {
    assert_eq!(sanitize_text("  hi\u{7}\tthere\n\u{1b}[0m ok \r\n"), "hithere\n[0m ok");
    assert_eq!(sanitize_text("\u{85}x\u{9f}"), "x");
    assert_eq!(sanitize_text(""), "");
}

#[test]
fn strings_fall_back_to_english() {
    assert_eq!(get("xx").help, get("en").help);
    assert_ne!(get("it").help, get("en").help);
    assert_eq!(languages().len(), 10);
    assert_eq!(languages()[1].code, "ar");
}

#[test]
fn config_defaults_overrides_and_token_check() {
    let d = Config::defaults();
    assert_eq!(d.telegram.mode, "poll");
    assert_eq!(d.telegram.webhook_listen, "127.0.0.1:8443");
    assert_eq!(d.llm.base_url, "http://127.0.0.1:8080");
    assert_eq!(d.llm.max_tokens, 512);
    assert_eq!(d.database.pool_max, 8);
    assert!(!d.whisper.enabled);
    let err = Config::resolve(None, &no_env()).unwrap_err();
    assert!(err.starts_with("Telegram token missing."));
    let mut env = no_env();
    env.telegram_token = Some("123:abc".to_string());
    env.whisper_url = Some("  http://127.0.0.1:8890 ".to_string());
    env.llm_key = Some("k".to_string());
    let c = Config::resolve(Some(Config::defaults()), &env).unwrap();
    assert_eq!(c.telegram.token, "123:abc");
    assert_eq!(c.whisper.url, "http://127.0.0.1:8890");
    assert!(c.whisper.enabled);
    assert_eq!(c.llm.api_key, "k");
    env.whisper_url = Some("   ".to_string());
    let c = Config::resolve(None, &env).unwrap();
    assert!(!c.whisper.enabled);
    assert_eq!(c.whisper.url, "");
}

#[test]
fn stats_texts() {
    let s = get("en");
    let u = UserStats {
        total_generations: 7,
        total_clones: 1,
        credits: 3,
        daily_used: 2,
        free_daily_limit: 3,
        member_since: None,
        last_active: Some("2024-05-01".to_string()),
    };
    assert_eq!(
        format_user_stats(&u, &s),
        format!(
            "{}\n\n{} 7 / 1\n{} 3\n{} 2 / 3\n{} N/A\n{} 2024-05-01",
            s.mystats_header, s.mystats_generations, s.mystats_credits, s.mystats_daily, s.mystats_since, s.mystats_last
        )
    );
    let a = AdminStats {
        total_users: 2,
        total_generations: 5,
        total_clones: 0,
        active_today: 1,
        active_this_week: 2,
        active_this_month: 2,
        users_with_consent: 1,
        banned_users: 0,
        top_users: vec![TopUser { user_id: 9, username: None, generations: 5, clones: 0 }],
    };
    let t = format_admin_stats(&a, &s);
    assert!(t.starts_with(&format!("{}\n\n👥 Total users: 2\n", s.stats_header)));
    assert!(t.ends_with("🏆 Top users:\n1. — (ID: 9) — 5 gens, 0 clones\n"));
    let empty = AdminStats { top_users: vec![], ..a };
    assert!(format_admin_stats(&empty, &s).ends_with("🏆 Top users:\n—"));
    let users = vec![UserEntry {
        user_id: 4,
        username: Some("bob".to_string()),
        credits: 1,
        daily_used: 0,
        lang: "it".to_string(),
        consent: true,
        banned: false,
        last_active: None,
    }];
    assert_eq!(
        format_user_list(&users, &s),
        format!("{} (1 total)\n\n✅ ID:4 @bob | 1 cred | 0 daily | it | never\n", s.users_header)
    );
    assert_eq!(
        format_daily_active(&[("2024-05-01".to_string(), 3)], &s),
        format!("{}\n\n📅 2024-05-01 — 3 users\n", s.daily_active_header)
    );
}

#[test]
fn error_messages() {
    assert_eq!(AnubisError::Wav("bad".into()).message(), "WAV codec: bad");
    assert_eq!(AnubisError::VoiceNotFound("x".into()).message(), "voice not found: x");
    assert_eq!(AnubisError::Db("locked".into()).message(), "database: locked");
    assert_eq!(AnubisError::Pool("t".into()).message(), "db pool: t");
    assert_eq!(AnubisError::Clone("c".into()).message(), "voice clone failed: c");
    assert_eq!(AnubisError::Http("h".into()).message(), "HTTP request failed: h");
    assert_eq!(AnubisError::Io("i".into()).message(), "IO error: i");
    assert_eq!(AnubisError::Json("j".into()).message(), "JSON error: j");
}

#[test]
fn defaults_match_the_constructors() {

    let t = TelegramConfig::default();
    assert_eq!(t.mode, "poll");
    assert_eq!(t.token, "");
    assert_eq!(t.webhook_listen, "127.0.0.1:8443");
    let l = LimitsConfig::default();
    assert_eq!((l.max_text_chars, l.max_concurrent_synth, l.free_daily), (1000, 2, 3));
    assert_eq!(l.free_daily, FREE_DAILY_DEFAULT);
    assert!(Metrics::default().render_with_uptime(0).contains("anubis_asks_total 0\n"));
}

#[test]
fn json_documents_are_navigated() {
    assert!(json_valid(br#"{"a":[1,"x"]}"#));
    assert!(!json_valid(b"{a:"));
    assert_eq!(json_str_field(br#"{"lang":"it","n":3}"#, "lang"), Some("it".to_string()));
    assert_eq!(json_str_field(br#"{"lang":"it","n":3}"#, "n"), None);
    assert_eq!(json_str_field(br#"["lang"]"#, "lang"), None);
    let doc = JsonValue::Object(vec![
        ("a".to_string(), JsonValue::Array(vec![JsonValue::Null, JsonValue::Str("x".to_string())])),
        ("b".to_string(), JsonValue::Bool(true)),
    ]);
    assert_eq!(text(at(anubis_core::json::get(Some(&doc), "a"), 1)), Some("x"));
    assert_eq!(text(at(anubis_core::json::get(Some(&doc), "a"), 2)), None);
    assert!(matches!(anubis_core::json::get(Some(&doc), "b"), Some(JsonValue::Bool(true))));
    assert!(anubis_core::json::get(Some(&doc), "c").is_none());
}

#[test]
fn sanitising_twice_changes_nothing() {
    for raw in ["  hi\u{7}\tthere\n\u{1b}[0m ok \r\n", "\u{85}x\u{9f}", " \u{7} \n a", ""] {
        let once = sanitize_text(raw);
        assert_eq!(sanitize_text(&once), once);
    }
}

#[test]
fn counters_tally_their_calls() {
    let mut m = Metrics::new();
    let calls = ["asks_total", "speak_total", "asks_total", "bogus", "speak_total", "asks_total"];
    for c in calls {
        m.inc(c);
    }
    let text = m.render_with_uptime(0);
    assert!(text.contains("\nanubis_asks_total 3\n"));
    assert!(text.contains("\nanubis_speak_total 2\n"));
    assert!(text.contains("\nanubis_clones_total 0\n"));
    assert_eq!(text.lines().count(), 33);
}

#[test]
fn rate_limit_counts_admitted_requests_in_window() {
    let mut rl = RateLimiter::new(2, 1);
    assert!(rl.check_at(1, RateKind::Speak, 0));
    assert!(rl.check_at(1, RateKind::Speak, 10));
    assert!(!rl.check_at(1, RateKind::Speak, 20));
    assert!(!rl.check_at(1, RateKind::Speak, SPEAK_WINDOW_NANOS));
    assert!(rl.check_at(1, RateKind::Speak, SPEAK_WINDOW_NANOS + 1));
    assert!(!rl.check_at(1, RateKind::Speak, SPEAK_WINDOW_NANOS + 5));
    assert!(rl.check_at(1, RateKind::Speak, SPEAK_WINDOW_NANOS + 11));
}
