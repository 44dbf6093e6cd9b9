use anubis_core::bot::logic::{
    accepts_payload, command_text, credits_from_payload, credits_text, dispatch_mode,
    is_unlimited, mystats_text, payment_success_text, route_callback, route_message,
    stars_invoice, teacher_arg, too_long_text, CallbackRoute, CommandArg, DispatchMode, MenuAction, MessageRoute, TeacherArg,
    WEBHOOK_URL_MISSING,
};
use anubis_core::bot::logic::{teacher_toggle, payment_grant, spend, tier_price_of, used_today, Spend, FREE_DAILY_DEFAULT};
use anubis_core::bot::{PendingAction, PromptKind};

#[test]
fn awaiting_prompt_carries_kind() {
    let a = PendingAction::AwaitingPrompt {
        kind: PromptKind::Ask,
    };
    let b = PendingAction::AwaitingPrompt {
        kind: PromptKind::Speak,
    };
    // Two AwaitingPrompt values with different inner fields must differ
    // when compared structurally (kind), even though they share the same
    // enum discriminant.
    assert_ne!(
        (matches!(&a, PendingAction::AwaitingPrompt { kind } if *kind == PromptKind::Ask)),
        (matches!(&b, PendingAction::AwaitingPrompt { kind } if *kind == PromptKind::Ask)),
    );
}

#[test]
fn callbacks_route_by_prefix() {
    assert!(matches!(route_callback("lang:it"), CallbackRoute::Lang(c) if c == "it"));
    assert!(matches!(route_callback("voice:en_US-amy-medium"), CallbackRoute::Voice(v) if v == "en_US-amy-medium"));
    assert!(matches!(route_callback("listen:last"), CallbackRoute::Listen));
    assert!(matches!(route_callback("menu:back"), CallbackRoute::MenuBack));
    assert!(matches!(route_callback("menu:other"), CallbackRoute::Menu));
    assert!(matches!(route_callback("act:teacher"), CallbackRoute::Act(MenuAction::Teacher)));
    assert!(matches!(route_callback("act:reset"), CallbackRoute::Act(MenuAction::Reset)));
    assert!(matches!(route_callback("act:dance"), CallbackRoute::ActOther));
    assert!(matches!(route_callback("lang"), CallbackRoute::Ignore));
    assert!(matches!(route_callback(""), CallbackRoute::Ignore));
    assert!(matches!(route_callback("lang:"), CallbackRoute::Lang(c) if c.is_empty()));
}

#[test]
fn teacher_arguments() {
    assert_eq!(teacher_arg(" ON "), TeacherArg::On);
    assert_eq!(teacher_arg("Enable"), TeacherArg::On);
    assert_eq!(teacher_arg("1"), TeacherArg::On);
    assert_eq!(teacher_arg("off"), TeacherArg::Off);
    assert_eq!(teacher_arg("DISABLE"), TeacherArg::Off);
    assert_eq!(teacher_arg("0"), TeacherArg::Off);
    assert_eq!(teacher_arg("Status"), TeacherArg::Status);
    assert_eq!(teacher_arg("   "), TeacherArg::Status);
    assert_eq!(teacher_arg("maybe"), TeacherArg::Usage);
}

#[test]
fn messages_route_to_command_prompt_or_question() {
    assert!(matches!(route_message(Some("  /foo"), Some(PendingAction::AwaitingPrompt { kind: PromptKind::Ask }), 1000), MessageRoute::UnknownCommand));
    assert!(matches!(
        route_message(Some("  say this "), Some(PendingAction::AwaitingPrompt { kind: PromptKind::Speak }), 1000),
        MessageRoute::Prompt { kind: PromptKind::Speak, text } if text == "say this"
    ));
    assert!(matches!(route_message(Some("   "), Some(PendingAction::AwaitingPrompt { kind: PromptKind::Ask }), 1000), MessageRoute::Ignore));
    assert!(matches!(route_message(None, Some(PendingAction::AwaitingPrompt { kind: PromptKind::Ask }), 1000), MessageRoute::Ignore));
    assert!(matches!(route_message(Some(" why? "), None, 1000), MessageRoute::Ask { text } if text == "why?"));
    assert!(matches!(route_message(None, None, 1000), MessageRoute::Ignore));
    assert!(matches!(route_message(Some(""), None, 1000), MessageRoute::Ignore));
}

#[test]
fn command_text_is_trimmed_or_absent() {
    assert!(matches!(command_text("  hello ", 1000), CommandArg::Text(t) if t == "hello"));
    assert!(matches!(command_text(" \n", 1000), CommandArg::Blank));
}

#[test]
fn credits_template_is_filled() {
    let t = "💳 Credits: <b>{credits}</b> (used today: {used}, {credits})";
    assert_eq!(credits_text(t, 42, -3), "💳 Credits: <b>42</b> (used today: -3, 42)");
    assert_eq!(
        mystats_text("📊 Your stats", "{credits}/{used}", 5, 0),
        "📊 Your stats\n\n5/0"
    );
    assert_eq!(payment_success_text("+{credits} credits", 50), "+50 credits");
    assert!(is_unlimited(999));
    assert!(!is_unlimited(998));
}

#[test]
fn payment_payloads() {
    assert_eq!(credits_from_payload("credits_120"), 120);
    assert_eq!(credits_from_payload("credits_+7"), 7);
    assert_eq!(credits_from_payload("credits_-4"), -4);
    assert_eq!(credits_from_payload("credits_x"), 50);
    assert_eq!(credits_from_payload("credits_"), 50);
    assert_eq!(credits_from_payload("credits_99999999999"), 50);
    assert_eq!(credits_from_payload("credits_2147483647"), 2147483647);
    assert_eq!(credits_from_payload("credits_-2147483648"), -2147483648);
    assert_eq!(credits_from_payload("credits_2147483648"), 50);
    assert_eq!(credits_from_payload("gift_10"), 50);
    assert!(accepts_payload("credits_50"));
    assert!(!accepts_payload("other"));
}

#[test]
fn the_invoice_is_accepted_and_grants_fifty() {
    let inv = stars_invoice();
    assert_eq!(inv.payload, "credits_50");
    assert!(accepts_payload(&inv.payload));
    assert_eq!(credits_from_payload(&inv.payload), 50);
    assert_eq!(inv.stars, 50);
    assert_eq!(inv.currency, "XTR");
    assert_eq!(inv.title, "ANUBIS — 50 Credits");
}

#[test]
fn dispatch_modes() {
    assert_eq!(dispatch_mode("poll", ""), Ok(DispatchMode::Poll));
    assert_eq!(dispatch_mode("  WebHook ", "https://x/webhook"), Ok(DispatchMode::Webhook));
    assert_eq!(dispatch_mode("webhook", "  "), Err(WEBHOOK_URL_MISSING));
    assert_eq!(dispatch_mode("", ""), Ok(DispatchMode::Poll));
}

#[test]
fn quota_rules() {
    assert_eq!(spend(0, 0, FREE_DAILY_DEFAULT, false), Spend::Free);
    assert_eq!(spend(0, 3, FREE_DAILY_DEFAULT, false), Spend::Refused);
    assert_eq!(spend(5, 3, FREE_DAILY_DEFAULT, false), Spend::Paid);
    assert_eq!(spend(0, 9, FREE_DAILY_DEFAULT, true), Spend::Unlimited);
    assert_eq!(used_today("2024-01-01", "2024-01-01", 2), 2);
    assert_eq!(used_today("2023-12-31", "2024-01-01", 2), 0);
}

#[test]
fn messages_are_sanitised_and_bounded() {
    assert!(matches!(
        route_message(Some("what\u{7} is\u{1b}[1m this?\r"), None, 1000),
        MessageRoute::Ask { text } if text == "what is[1m this?"
    ));
    assert!(matches!(route_message(Some("\u{7}\u{8}"), None, 1000), MessageRoute::Ignore));
    assert!(matches!(route_message(Some(" abcde "), None, 5), MessageRoute::Ask { text } if text == "abcde"));
    assert!(matches!(route_message(Some("abcdef"), None, 5), MessageRoute::TooLong));
    assert!(matches!(
        route_message(Some("\u{7}abc\u{7}de\u{7}"), Some(PendingAction::AwaitingPrompt { kind: PromptKind::Speak }), 5),
        MessageRoute::Prompt { kind: PromptKind::Speak, text } if text == "abcde"
    ));
    assert!(matches!(command_text("àèìòùx", 5), CommandArg::TooLong));
    assert!(matches!(command_text("a\u{0}b", 5), CommandArg::Text(t) if t == "ab"));
    assert_eq!(too_long_text(1000), "Message too long: at most 1000 characters.");
}

#[test]
fn payments_grant_a_sold_tier_once() {
    let inv = stars_invoice();
    assert_eq!(payment_grant(&inv.payload, inv.stars, true), Some(inv.credits));
    assert_eq!(payment_grant("credits_50", 50, true), Some(50));
    assert_eq!(payment_grant("credits_50", 50, false), None);
    assert_eq!(payment_grant("credits_50", 1, true), None);
    assert_eq!(payment_grant("credits_5000", 50, true), None);
    assert_eq!(payment_grant("credits_x", 50, true), None);
    assert_eq!(payment_grant("gift_50", 50, true), None);
    assert_eq!(tier_price_of(50), Some(50));
    assert_eq!(tier_price_of(49), None);
}

#[test]
fn teacher_toggle_flips_and_announces() {
    let s = anubis_core::i18n::get("en");
    assert_eq!(teacher_toggle(false, &s), (true, s.teacher_on));
    assert_eq!(teacher_toggle(true, &s), (false, s.teacher_off));
}
