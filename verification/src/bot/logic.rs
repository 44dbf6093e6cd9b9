//! The decisions behind the bot's handlers: callback routing, message
//! routing, teacher-mode arguments, credit texts, payments and the choice of
//! transport.

use crate::bot::{PendingAction, PromptKind};
use crate::text::{
    dec_int, has_prefix, i64_to_string, is_blank, replace, replace_all, str_eq,
    strip_prefix, parse_i32, parse_i32_exec, to_ascii_lowercase, ascii_lower, trim, trimmed,
    starts_with, push_str, push_u64, dec_nat,
};
use crate::i18n::Strings;
use crate::security::sanitize::{sanitize_text, sanitized};
use vstd::prelude::*;

verus! {

/// The main-menu actions.
#[derive(Debug, Clone, Copy, PartialEq, Eq, Structural)]
pub enum MenuAction {
    Ask,
    Speak,
    Voices,
    Lang,
    Teacher,
    Help,
    Credits,
    Upgrade,
    Reset,
}

/// The menu action a callback names, if any.
pub open spec fn action_of(a: Seq<char>) -> Option<MenuAction> {
    if a == "ask"@ {
        Some(MenuAction::Ask)
    } else if a == "speak"@ {
        Some(MenuAction::Speak)
    } else if a == "voices"@ {
        Some(MenuAction::Voices)
    } else if a == "lang"@ {
        Some(MenuAction::Lang)
    } else if a == "teacher"@ {
        Some(MenuAction::Teacher)
    } else if a == "help"@ {
        Some(MenuAction::Help)
    } else if a == "credits"@ {
        Some(MenuAction::Credits)
    } else if a == "upgrade"@ {
        Some(MenuAction::Upgrade)
    } else if a == "reset"@ {
        Some(MenuAction::Reset)
    } else {
        None
    }
}

/// The name of each menu action: what its button sends after `act:`.
pub open spec fn action_name(m: MenuAction) -> Seq<char> {
    match m {
        MenuAction::Ask => "ask"@,
        MenuAction::Speak => "speak"@,
        MenuAction::Voices => "voices"@,
        MenuAction::Lang => "lang"@,
        MenuAction::Teacher => "teacher"@,
        MenuAction::Help => "help"@,
        MenuAction::Credits => "credits"@,
        MenuAction::Upgrade => "upgrade"@,
        MenuAction::Reset => "reset"@,
    }
}

/// Callback names and menu actions correspond one to one: each action's own
/// name routes to that action, and a name that routes to an action is that
/// action's name (so no two names share an action).
pub proof fn lemma_action_names(a: Seq<char>, m: MenuAction)
    ensures
        action_of(action_name(m)) == Some(m),
        action_of(a) == Some(m) ==> a == action_name(m),
{
    reveal_strlit("ask");
    reveal_strlit("speak");
    reveal_strlit("voices");
    reveal_strlit("lang");
    reveal_strlit("teacher");
    reveal_strlit("help");
    reveal_strlit("credits");
    reveal_strlit("upgrade");
    reveal_strlit("reset");
    match m {
        MenuAction::Ask => {

        },
        MenuAction::Speak => {
            assert("ask"@.len() != "speak"@.len());
        },
        MenuAction::Voices => {
            assert("ask"@.len() != "voices"@.len());
            assert("speak"@.len() != "voices"@.len());
        },
        MenuAction::Lang => {
            assert("ask"@.len() != "lang"@.len());
            assert("speak"@.len() != "lang"@.len());
            assert("voices"@.len() != "lang"@.len());
        },
        MenuAction::Teacher => {
            assert("ask"@.len() != "teacher"@.len());
            assert("speak"@.len() != "teacher"@.len());
            assert("voices"@.len() != "teacher"@.len());
            assert("lang"@.len() != "teacher"@.len());
        },
        MenuAction::Help => {
            assert("ask"@.len() != "help"@.len());
            assert("speak"@.len() != "help"@.len());
            assert("voices"@.len() != "help"@.len());
            assert("lang"@[0] != "help"@[0]);
            assert("teacher"@.len() != "help"@.len());
        },
        MenuAction::Credits => {
            assert("ask"@.len() != "credits"@.len());
            assert("speak"@.len() != "credits"@.len());
            assert("voices"@.len() != "credits"@.len());
            assert("lang"@.len() != "credits"@.len());
            assert("teacher"@[0] != "credits"@[0]);
            assert("help"@.len() != "credits"@.len());
        },
        MenuAction::Upgrade => {
            assert("ask"@.len() != "upgrade"@.len());
            assert("speak"@.len() != "upgrade"@.len());
            assert("voices"@.len() != "upgrade"@.len());
            assert("lang"@.len() != "upgrade"@.len());
            assert("teacher"@[0] != "upgrade"@[0]);
            assert("help"@.len() != "upgrade"@.len());
            assert("credits"@[0] != "upgrade"@[0]);
        },
        MenuAction::Reset => {
            assert("ask"@.len() != "reset"@.len());
            assert("speak"@[0] != "reset"@[0]);
            assert("voices"@.len() != "reset"@.len());
            assert("lang"@.len() != "reset"@.len());
            assert("teacher"@.len() != "reset"@.len());
            assert("help"@.len() != "reset"@.len());
            assert("credits"@.len() != "reset"@.len());
            assert("upgrade"@.len() != "reset"@.len());
        },
    }
}

fn action_exec(a: &str) -> (r: Option<MenuAction>)
    ensures
        r == action_of(a@),
{
    if str_eq(a, "ask") {
        Some(MenuAction::Ask)
    } else if str_eq(a, "speak") {
        Some(MenuAction::Speak)
    } else if str_eq(a, "voices") {
        Some(MenuAction::Voices)
    } else if str_eq(a, "lang") {
        Some(MenuAction::Lang)
    } else if str_eq(a, "teacher") {
        Some(MenuAction::Teacher)
    } else if str_eq(a, "help") {
        Some(MenuAction::Help)
    } else if str_eq(a, "credits") {
        Some(MenuAction::Credits)
    } else if str_eq(a, "upgrade") {
        Some(MenuAction::Upgrade)
    } else if str_eq(a, "reset") {
        Some(MenuAction::Reset)
    } else {
        None
    }
}

/// What an inline-button callback asks for.
#[derive(Debug)]
pub enum CallbackRoute {
    /// `lang:<code>`: switch the interface language (and the voice to the
    /// language's best voice).
    Lang(String),
    /// `voice:<id>`: make this the active voice.
    Voice(String),
    /// `listen:...`: speak the last reply.
    Listen,
    /// `menu:back`: show the main menu again.
    MenuBack,
    /// Another `menu:` callback: nothing to do.
    Menu,
    /// `act:<action>`: a main-menu action.
    Act(MenuAction),
    /// An `act:` callback naming no known action: nothing to do.
    ActOther,
    /// Any other data: nothing to do.
    Ignore,
}

/// The rest of `s` after a prefix `p` it has.
pub open spec fn after(s: Seq<char>, p: Seq<char>) -> Seq<char> {
    s.subrange(p.len() as int, s.len() as int)
}

/// Route a callback's data, by its prefix, checked in this order: `lang:`,
/// `voice:`, `listen:`, `menu:`, `act:`.
pub fn route_callback(data: &str) -> (r: CallbackRoute)
    ensures
        if has_prefix(data@, "lang:"@) {
            r matches CallbackRoute::Lang(c) && c@ == after(data@, "lang:"@)
        } else if has_prefix(data@, "voice:"@) {
            r matches CallbackRoute::Voice(v) && v@ == after(data@, "voice:"@)
        } else if has_prefix(data@, "listen:"@) {
            r is Listen
        } else if has_prefix(data@, "menu:"@) {
            if after(data@, "menu:"@) == "back"@ {
                r is MenuBack
            } else {
                r is Menu
            }
        } else if has_prefix(data@, "act:"@) {
            match action_of(after(data@, "act:"@)) {
                Some(a) => r == CallbackRoute::Act(a),
                None => r is ActOther,
            }
        } else {
            r is Ignore
        },
{
    if let Some(code) = strip_prefix(data, "lang:") {
        return CallbackRoute::Lang(code);
    }
    if let Some(id) = strip_prefix(data, "voice:") {
        return CallbackRoute::Voice(id);
    }
    if starts_with(data, "listen:") {
        return CallbackRoute::Listen;
    }
    if let Some(action) = strip_prefix(data, "menu:") {
        if str_eq(action.as_str(), "back") {
            return CallbackRoute::MenuBack;
        }
        return CallbackRoute::Menu;
    }
    if let Some(action) = strip_prefix(data, "act:") {
        return match action_exec(action.as_str()) {
            Some(a) => CallbackRoute::Act(a),
            None => CallbackRoute::ActOther,
        };
    }
    CallbackRoute::Ignore
}

/// What a `/teacher` argument asks for.
#[derive(Debug, Clone, Copy, PartialEq, Eq, Structural)]
pub enum TeacherArg {
    On,
    Off,
    Status,
    Usage,
}

/// The meaning of a `/teacher` argument, read trimmed and ASCII-lowered.
pub open spec fn teacher_arg_of(arg: Seq<char>) -> TeacherArg {
    let a = ascii_lower(trimmed(arg));
    if a == "on"@ || a == "enable"@ || a == "1"@ {
        TeacherArg::On
    } else if a == "off"@ || a == "disable"@ || a == "0"@ {
        TeacherArg::Off
    } else if a == "status"@ || a.len() == 0 {
        TeacherArg::Status
    } else {
        TeacherArg::Usage
    }
}

/// Read a `/teacher` argument: `on`/`enable`/`1`, `off`/`disable`/`0`,
/// `status` or nothing; anything else gets the usage text.
pub fn teacher_arg(arg: &str) -> (r: TeacherArg)
    ensures
        r == teacher_arg_of(arg@),
{
    let t = trim(arg);
    let a = to_ascii_lowercase(t.as_str());
    let s = a.as_str();
    if str_eq(s, "on") || str_eq(s, "enable") || str_eq(s, "1") {
        TeacherArg::On
    } else if str_eq(s, "off") || str_eq(s, "disable") || str_eq(s, "0") {
        TeacherArg::Off
    } else if str_eq(s, "status") || s.unicode_len() == 0 {
        TeacherArg::Status
    } else {
        TeacherArg::Usage
    }
}

/// What a plain message leads to.
#[derive(Debug)]
pub enum MessageRoute {
    /// A slash command the bot does not know: answer with the
    /// unknown-command text and the help.
    UnknownCommand,
    /// The input the bot was waiting for, sanitised.
    Prompt { kind: PromptKind, text: String },
    /// A question for the teacher, sanitised.
    Ask { text: String },
    /// The sanitised text is longer than the configured limit: refuse it.
    TooLong,
    /// Nothing to do.
    Ignore,
}

/// Whether a message is a slash command: its trimmed text begins with `/`.
pub open spec fn is_slash(text: Option<Seq<char>>) -> bool {
    text matches Some(t) && has_prefix(trimmed(t), "/"@)
}

/// The text of an optional message, empty when it has none.
pub open spec fn text_or_empty(text: Option<Seq<char>>) -> Seq<char> {
    match text {
        Some(t) => t,
        None => Seq::empty(),
    }
}

/// An optional string slice by its text.
pub open spec fn opt_str(text: Option<&str>) -> Option<Seq<char>> {
    match text {
        Some(t) => Some(t@),
        None => None,
    }
}

/// Route a plain message. The text that goes on to the teacher or to
/// synthesis is the sanitised message (control characters other than
/// newline stripped, white space trimmed); a sanitised text of more than
/// `max_text_chars` characters is refused. `pending` is what the bot was
/// waiting for from the user; the caller drops it in every case.
pub fn route_message(
    text: Option<&str>,
    pending: Option<PendingAction>,
    max_text_chars: usize,
) -> (r: MessageRoute)
    ensures
        ({
            let t = sanitized(text_or_empty(opt_str(text)));
            if is_slash(opt_str(text)) {
                r is UnknownCommand
            } else if t.len() == 0 {
                r is Ignore
            } else if t.len() > max_text_chars {
                r is TooLong
            } else if pending is Some {
                r matches MessageRoute::Prompt { kind, text: x } && pending == Some(
                    PendingAction::AwaitingPrompt { kind },
                ) && x@ == t
            } else {
                r matches MessageRoute::Ask { text: x } && x@ == t
            }
        }),
{
    let raw = match text {
        Some(t) => t,
        None => "",
    };
    proof {
        if text is None {
            reveal_strlit("");
        }
    }
    let t = trim(raw);
    if text.is_some() && starts_with(t.as_str(), "/") {
        return MessageRoute::UnknownCommand;
    }
    let clean = sanitize_text(raw);
    let n = clean.as_str().unicode_len();
    if n == 0 {
        return MessageRoute::Ignore;
    }
    if n > max_text_chars {
        return MessageRoute::TooLong;
    }
    match pending {
        Some(PendingAction::AwaitingPrompt { kind }) => MessageRoute::Prompt { kind, text: clean },
        None => MessageRoute::Ask { text: clean },
    }
}

/// The argument of `/ask` or `/speak`.
#[derive(Debug)]
pub enum CommandArg {
    /// No argument: the bot waits for the input as the next message.
    Blank,
    /// The sanitised argument is longer than the configured limit.
    TooLong,
    /// The sanitised argument.
    Text(String),
}

/// The argument of `/ask` or `/speak`, sanitised and bounded like a plain
/// message.
pub fn command_text(text: &str, max_text_chars: usize) -> (r: CommandArg)
    ensures
        sanitized(text@).len() == 0 ==> r is Blank,
        0 < sanitized(text@).len() <= max_text_chars ==> (r matches CommandArg::Text(t) && t@
            == sanitized(text@)),
        sanitized(text@).len() > max_text_chars ==> r is TooLong,
{
    let t = sanitize_text(text);
    let n = t.as_str().unicode_len();
    if n == 0 {
        CommandArg::Blank
    } else if n > max_text_chars {
        CommandArg::TooLong
    } else {
        CommandArg::Text(t)
    }
}

/// The reply to a message longer than the limit.
pub open spec fn too_long_text_of(max_text_chars: usize) -> Seq<char> {
    "Message too long: at most "@ + dec_nat(max_text_chars as nat) + " characters."@
}

/// The reply to a message longer than `max_text_chars` characters.
pub fn too_long_text(max_text_chars: usize) -> (r: String)
    ensures
        r@ == too_long_text_of(max_text_chars),
{
    let mut out = crate::text::to_owned("Message too long: at most ");
    push_u64(&mut out, max_text_chars as u64);
    push_str(&mut out, " characters.");
    out
}

/// The credits text: the template with `{credits}` and then `{used}`
/// replaced by the numbers.
pub open spec fn credits_text_of(template: Seq<char>, credits: i32, used: i32) -> Seq<char> {
    replace_all(
        replace_all(template, "{credits}"@, dec_int(credits as int)),
        "{used}"@,
        dec_int(used as int),
    )
}

/// Fill in the credits template.
pub fn credits_text(template: &str, credits: i32, used: i32) -> (r: String)
    ensures
        r@ == credits_text_of(template@, credits, used),
{
    proof {
        reveal_strlit("{credits}");
        reveal_strlit("{used}");
    }
    let c = i64_to_string(credits as i64);
    let u = i64_to_string(used as i64);
    let first = replace(template, "{credits}", c.as_str());
    replace(first.as_str(), "{used}", u.as_str())
}

/// The `/mystats` text: the header, a blank line, then the credits text.
pub fn mystats_text(header: &str, template: &str, credits: i32, used: i32) -> (r: String)
    ensures
        r@ == header@ + "\n\n"@ + credits_text_of(template@, credits, used),
{
    let mut out = crate::text::to_owned(header);
    push_str(&mut out, "\n\n");
    let line = credits_text(template, credits, used);
    push_str(&mut out, line.as_str());
    out
}

/// Whether a user's credits make the daily quota unlimited.
pub fn is_unlimited(credits: i32) -> (r: bool)
    ensures
        r == (credits >= 999),
{
    credits >= 999
}

/// The invoice payload prefix the bot issues and accepts.
pub const PAYLOAD_PREFIX: &'static str = "credits_";

/// The credits a purchase grants: the number after `credits_` in the
/// payload, or 50 when the payload does not carry one.
pub open spec fn credits_of_payload(payload: Seq<char>) -> i32 {
    if has_prefix(payload, "credits_"@) {
        match parse_i32(after(payload, "credits_"@)) {
            Some(n) => n,
            None => 50,
        }
    } else {
        50
    }
}

/// Read the credits out of a payment payload.
pub fn credits_from_payload(payload: &str) -> (r: i32)
    ensures
        r == credits_of_payload(payload@),
{
    match strip_prefix(payload, PAYLOAD_PREFIX) {
        Some(n) => match parse_i32_exec(n.as_str()) {
            Some(v) => v,
            None => 50,
        },
        None => 50,
    }
}

/// The price in Stars of each credit tier the bot sells; `None` for an
/// amount of credits it does not sell.
pub open spec fn tier_price(credits: i32) -> Option<u32> {
    if credits == 50 {
        Some(50)
    } else {
        None
    }
}

/// The price of a tier, if the bot sells it.
pub fn tier_price_of(credits: i32) -> (r: Option<u32>)
    ensures
        r == tier_price(credits),
{
    if credits == 50 {
        Some(50)
    } else {
        None
    }
}

/// The credits a successful payment grants: the tier its payload names,
/// when `total_amount` is that tier's price and the charge is credited for
/// the first time; nothing otherwise.
pub open spec fn payment_grant_of(payload: Seq<char>, total_amount: u32, first_time: bool) -> Option<
    i32,
> {
    if first_time && has_prefix(payload, "credits_"@) {
        match parse_i32(after(payload, "credits_"@)) {
            Some(n) => if tier_price(n) == Some(total_amount) {
                Some(n)
            } else {
                None
            },
            None => None,
        }
    } else {
        None
    }
}

/// Decide what a successful payment grants. `first_time` says whether its
/// charge id was recorded now (a replayed charge is not).
pub fn payment_grant(payload: &str, total_amount: u32, first_time: bool) -> (r: Option<i32>)
    ensures
        r == payment_grant_of(payload@, total_amount, first_time),
{
    if !first_time {
        return None;
    }
    match strip_prefix(payload, PAYLOAD_PREFIX) {
        Some(n) => match parse_i32_exec(n.as_str()) {
            Some(v) => match tier_price_of(v) {
                Some(price) => if price == total_amount {
                    Some(v)
                } else {
                    None
                },
                None => None,
            },
            None => None,
        },
        None => None,
    }
}

/// Pre-checkout: only the bot's own payloads are accepted.
pub fn accepts_payload(payload: &str) -> (r: bool)
    ensures
        r == has_prefix(payload@, "credits_"@),
{
    starts_with(payload, PAYLOAD_PREFIX)
}

/// The payment-success text: the template with `{credits}` replaced.
pub fn payment_success_text(template: &str, credits: i32) -> (r: String)
    ensures
        r@ == replace_all(template@, "{credits}"@, dec_int(credits as int)),
{
    proof {
        reveal_strlit("{credits}");
    }
    let c = i64_to_string(credits as i64);
    replace(template, "{credits}", c.as_str())
}

/// The Telegram Stars invoice the bot sends.
#[derive(Debug)]
pub struct StarsInvoice {
    pub title: &'static str,
    pub payload: String,
    pub currency: &'static str,
    pub label: &'static str,
    pub stars: u32,
    pub credits: i32,
}

/// The invoice for 50 credits at 50 Stars (currency `XTR`, which takes an
/// empty provider token).
pub fn stars_invoice() -> (inv: StarsInvoice)
    ensures
        inv.payload@ == "credits_"@ + dec_int(50),
        inv.stars == 50,
        inv.credits == 50,
        inv.currency@ == "XTR"@,
        inv.title@ == "ANUBIS — 50 Credits"@,
        inv.label@ == "50 credits"@,
{
    let credits: i32 = 50;
    let mut payload = crate::text::to_owned(PAYLOAD_PREFIX);
    let n = i64_to_string(credits as i64);
    push_str(&mut payload, n.as_str());
    StarsInvoice {
        title: "ANUBIS — 50 Credits",
        payload,
        currency: "XTR",
        label: "50 credits",
        stars: 50,
        credits,
    }
}

/// How the bot receives updates.
#[derive(Debug, Clone, Copy, PartialEq, Eq, Structural)]
pub enum DispatchMode {
    Poll,
    Webhook,
}

/// The error for webhook mode without a URL.
pub const WEBHOOK_URL_MISSING: &'static str = "webhook mode requires ANUBIS_WEBHOOK_URL (e.g. https://anubis.example.com:8443/webhook)";

/// Webhook mode when the mode (trimmed, ASCII-lowered) is `webhook`, which
/// needs a non-blank URL; long polling otherwise.
pub fn dispatch_mode(mode: &str, webhook_url: &str) -> (r: Result<DispatchMode, &'static str>)
    ensures
        ascii_lower(trimmed(mode@)) != "webhook"@ ==> r == Ok::<DispatchMode, &'static str>(
            DispatchMode::Poll,
        ),
        ascii_lower(trimmed(mode@)) == "webhook"@ && trimmed(webhook_url@).len() == 0 ==> (r matches Err(e) && e@ == WEBHOOK_URL_MISSING@),
        ascii_lower(trimmed(mode@)) == "webhook"@ && trimmed(webhook_url@).len() != 0 ==> r
            == Ok::<DispatchMode, &'static str>(DispatchMode::Webhook),
{
    let t = trim(mode);
    let m = to_ascii_lowercase(t.as_str());
    if !str_eq(m.as_str(), "webhook") {
        return Ok(DispatchMode::Poll);
    }
    if is_blank(webhook_url) {
        return Err(WEBHOOK_URL_MISSING);
    }
    Ok(DispatchMode::Webhook)
}

/// The invoice the bot issues is one it accepts, and it grants the credits
/// it advertises.
pub proof fn lemma_invoice_payload_accepted()
    ensures
        has_prefix("credits_"@ + dec_int(50), "credits_"@),
        credits_of_payload("credits_"@ + dec_int(50)) == 50,
        parse_i32(after("credits_"@ + dec_int(50), "credits_"@)) == Some(50i32),
{
    reveal_strlit("credits_");
    let p = "credits_"@ + dec_int(50);
    reveal_with_fuel(crate::text::dec_nat, 3);
    assert(dec_int(50) =~= seq!['5', '0']);
    assert(p.subrange(0, 8) =~= "credits_"@);
    assert(after(p, "credits_"@) =~= seq!['5', '0']);
    let d = seq!['5', '0'];
    assert(crate::text::all_digits(d));
    assert(d.drop_last() =~= seq!['5']);
    assert(d.drop_last().drop_last() =~= Seq::<char>::empty());
    assert(('5' as u32) == 53u32);
    assert(('0' as u32) == 48u32);
    assert(crate::text::digits_value(Seq::<char>::empty()) == 0);
    assert(crate::text::digits_value(seq!['5']) == 5) by {
        assert(seq!['5'].drop_last() =~= Seq::<char>::empty());
        assert(seq!['5'].last() == '5');
    }
    assert(crate::text::digits_value(d) == 50);
    assert(crate::text::int_text_value(d) == Some(50int));
    assert(parse_i32(d) == Some(50i32));
}


/// The default number of free requests each user gets per day (the
/// configured number is `LimitsConfig::free_daily`).
pub const FREE_DAILY_DEFAULT: i32 = 3;

/// How a request is paid for.
#[derive(Debug, Clone, Copy, PartialEq, Eq, Structural)]
pub enum Spend {
    /// The user has unlimited use: nothing is spent.
    Unlimited,
    /// From today's free quota.
    Free,
    /// With one purchased credit.
    Paid,
    /// The quota is used up and there are no credits: refused.
    Refused,
}

/// Charge a request: unlimited users pay nothing; otherwise today's free
/// quota is used first, then a purchased credit; with neither left the
/// request is refused.
pub fn spend(credits: i32, daily_used: i32, free_daily: i32, unlimited: bool) -> (r: Spend)
    ensures
        r == if unlimited {
            Spend::Unlimited
        } else if daily_used < free_daily {
            Spend::Free
        } else if credits > 0 {
            Spend::Paid
        } else {
            Spend::Refused
        },
{
    if unlimited {
        Spend::Unlimited
    } else if daily_used < free_daily {
        Spend::Free
    } else if credits > 0 {
        Spend::Paid
    } else {
        Spend::Refused
    }
}

/// Today's usage: the stored count when it was recorded today, else zero
/// (the quota resets each day).
pub fn used_today(recorded_on: &str, today: &str, daily_used: i32) -> (r: i32)
    ensures
        r == if recorded_on@ == today@ {
            daily_used
        } else {
            0
        },
{
    if str_eq(recorded_on, today) {
        daily_used
    } else {
        0
    }
}

/// Paying the bot's invoice at its price grants the credits it advertises
/// the first time the charge is credited; a replayed charge, or a payment of
/// another amount, grants nothing.
pub proof fn lemma_invoice_payment_granted_once(payload: Seq<char>, total_amount: u32)
    ensures
        payment_grant_of("credits_"@ + dec_int(50), 50, true) == Some(50i32),
        total_amount != 50 ==> payment_grant_of("credits_"@ + dec_int(50), total_amount, true)
            is None,
        payment_grant_of(payload, total_amount, false) is None,
{
    lemma_invoice_payload_accepted();
}

/// The menu's teacher toggle: the new mode is the opposite of the current
/// one, announced with the text for the new mode.
pub fn teacher_toggle(current: bool, s: &Strings) -> (r: (bool, &'static str))
    ensures
        r.0 == !current,
        r.1 == if !current {
            s.teacher_on
        } else {
            s.teacher_off
        },
{
    if !current {
        (true, s.teacher_on)
    } else {
        (false, s.teacher_off)
    }
}

} // verus!

