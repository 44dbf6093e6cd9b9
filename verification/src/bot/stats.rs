//! Statistics records for the user and admin commands, and their display
//! formatting.

use crate::i18n::Strings;
use crate::text::dec_int;
use crate::text::dec_nat;
use crate::text::push_i64;
use crate::text::push_str;
use crate::text::push_u64;
use vstd::prelude::*;

verus! {

/// Stats shown to a user (`/mystats`).
#[derive(Debug, Clone)]
pub struct UserStats {
    pub total_generations: i64,
    pub total_clones: i64,
    pub credits: i32,
    pub daily_used: i32,
    pub free_daily_limit: i32,
    pub member_since: Option<String>,
    pub last_active: Option<String>,
}

/// Detailed stats for the admin (`/stats`).
#[derive(Debug, Clone)]
pub struct AdminStats {
    pub total_users: i64,
    pub total_generations: i64,
    pub total_clones: i64,
    pub active_today: i64,
    pub active_this_week: i64,
    pub active_this_month: i64,
    pub users_with_consent: i64,
    pub banned_users: i64,
    pub top_users: Vec<TopUser>,
}

/// A top-user entry of the admin stats.
#[derive(Debug, Clone)]
pub struct TopUser {
    pub user_id: i64,
    pub username: Option<String>,
    pub generations: i64,
    pub clones: i64,
}

/// A user-list entry (`/users`).
#[derive(Debug, Clone)]
pub struct UserEntry {
    pub user_id: i64,
    pub username: Option<String>,
    pub credits: i32,
    pub daily_used: i32,
    pub lang: String,
    pub consent: bool,
    pub banned: bool,
    pub last_active: Option<String>,
}

/// The text of an optional value, or a placeholder when absent.
pub open spec fn or_text(v: Option<String>, placeholder: Seq<char>) -> Seq<char> {
    match v {
        Some(s) => s@,
        None => placeholder,
    }
}

fn push_or(out: &mut String, v: &Option<String>, placeholder: &str)
    ensures
        final(out)@ == old(out)@ + or_text(*v, placeholder@),
{
    match v {
        Some(s) => push_str(out, s.as_str()),
        None => push_str(out, placeholder),
    }
}

/// The `/mystats` text.
pub open spec fn user_stats_text(stats: UserStats, s: Strings) -> Seq<char> {
    s.mystats_header@ + "\n\n"@ + s.mystats_generations@ + " "@ + dec_int(
        stats.total_generations as int,
    ) + " / "@ + dec_int(stats.total_clones as int) + "\n"@ + s.mystats_credits@ + " "@
        + dec_int(stats.credits as int) + "\n"@ + s.mystats_daily@ + " "@ + dec_int(
        stats.daily_used as int,
    ) + " / "@ + dec_int(stats.free_daily_limit as int) + "\n"@ + s.mystats_since@ + " "@
        + or_text(stats.member_since, "N/A"@) + "\n"@ + s.mystats_last@ + " "@ + or_text(
        stats.last_active,
        "N/A"@,
    )
}

/// Format user stats for display.
pub fn format_user_stats(stats: &UserStats, s: &Strings) -> (r: String)
    ensures
        r@ == user_stats_text(*stats, *s),
{
    let mut out = String::new();
    push_str(&mut out, s.mystats_header);
    push_str(&mut out, "\n\n");
    push_str(&mut out, s.mystats_generations);
    push_str(&mut out, " ");
    push_i64(&mut out, stats.total_generations);
    push_str(&mut out, " / ");
    push_i64(&mut out, stats.total_clones);
    push_str(&mut out, "\n");
    push_str(&mut out, s.mystats_credits);
    push_str(&mut out, " ");
    push_i64(&mut out, stats.credits as i64);
    push_str(&mut out, "\n");
    push_str(&mut out, s.mystats_daily);
    push_str(&mut out, " ");
    push_i64(&mut out, stats.daily_used as i64);
    push_str(&mut out, " / ");
    push_i64(&mut out, stats.free_daily_limit as i64);
    push_str(&mut out, "\n");
    push_str(&mut out, s.mystats_since);
    push_str(&mut out, " ");
    push_or(&mut out, &stats.member_since, "N/A");
    push_str(&mut out, "\n");
    push_str(&mut out, s.mystats_last);
    push_str(&mut out, " ");
    push_or(&mut out, &stats.last_active, "N/A");
    out
}

/// One line of the top-users list; `rank` counts from one.
pub open spec fn top_user_line(rank: nat, u: TopUser) -> Seq<char> {
    dec_nat(rank) + ". "@ + or_text(u.username, "—"@) + " (ID: "@ + dec_int(u.user_id as int)
        + ") — "@ + dec_int(u.generations as int) + " gens, "@ + dec_int(u.clones as int)
        + " clones\n"@
}

/// The lines of the first `n` top users.
pub open spec fn top_users_text(users: Seq<TopUser>, n: int) -> Seq<char>
    decreases n,
{
    if n <= 0 {
        Seq::empty()
    } else {
        top_users_text(users, n - 1) + top_user_line(n as nat, users[n - 1])
    }
}

/// The `/stats` text.
pub open spec fn admin_stats_text(stats: AdminStats, s: Strings) -> Seq<char> {
    let top = if stats.top_users@.len() == 0 {
        "—"@
    } else {
        top_users_text(stats.top_users@, stats.top_users@.len() as int)
    };
    s.stats_header@ + "\n\n👥 Total users: "@ + dec_int(stats.total_users as int)
        + "\n🎤 Total generations: "@ + dec_int(stats.total_generations as int)
        + "\n🎭 Total clones: "@ + dec_int(stats.total_clones as int) + "\n📅 Active today: "@
        + dec_int(stats.active_today as int) + "\n📅 Active this week: "@ + dec_int(
        stats.active_this_week as int,
    ) + "\n📅 Active this month: "@ + dec_int(stats.active_this_month as int)
        + "\n✅ Users with consent: "@ + dec_int(stats.users_with_consent as int)
        + "\n🚫 Banned users: "@ + dec_int(stats.banned_users as int) + "\n\n🏆 Top users:\n"@
        + top
}

/// Format admin stats for display.
pub fn format_admin_stats(stats: &AdminStats, s: &Strings) -> (r: String)
    requires
        stats.top_users@.len() < u64::MAX,
    ensures
        r@ == admin_stats_text(*stats, *s),
{
    let mut top = String::new();
    let mut i: usize = 0;
    while i < stats.top_users.len()
        invariant
            i <= stats.top_users@.len() < u64::MAX,
            top@ == top_users_text(stats.top_users@, i as int),
        decreases stats.top_users@.len() - i,
    {
        let u = &stats.top_users[i];
        push_u64(&mut top, (i + 1) as u64);
        push_str(&mut top, ". ");
        push_or(&mut top, &u.username, "—");
        push_str(&mut top, " (ID: ");
        push_i64(&mut top, u.user_id);
        push_str(&mut top, ") — ");
        push_i64(&mut top, u.generations);
        push_str(&mut top, " gens, ");
        push_i64(&mut top, u.clones);
        push_str(&mut top, " clones\n");
        i = i + 1;
        assert(top@ =~= top_users_text(stats.top_users@, i as int));
    }
    if stats.top_users.len() == 0 {
        top = String::new();
        push_str(&mut top, "—");
    }
    let mut out = String::new();
    push_str(&mut out, s.stats_header);
    push_str(&mut out, "\n\n👥 Total users: ");
    push_i64(&mut out, stats.total_users);
    push_str(&mut out, "\n🎤 Total generations: ");
    push_i64(&mut out, stats.total_generations);
    push_str(&mut out, "\n🎭 Total clones: ");
    push_i64(&mut out, stats.total_clones);
    push_str(&mut out, "\n📅 Active today: ");
    push_i64(&mut out, stats.active_today);
    push_str(&mut out, "\n📅 Active this week: ");
    push_i64(&mut out, stats.active_this_week);
    push_str(&mut out, "\n📅 Active this month: ");
    push_i64(&mut out, stats.active_this_month);
    push_str(&mut out, "\n✅ Users with consent: ");
    push_i64(&mut out, stats.users_with_consent);
    push_str(&mut out, "\n🚫 Banned users: ");
    push_i64(&mut out, stats.banned_users);
    push_str(&mut out, "\n\n🏆 Top users:\n");
    push_str(&mut out, top.as_str());
    out
}

/// The status marker of a user entry.
pub open spec fn status_marker(u: UserEntry) -> Seq<char> {
    if u.banned {
        "🚫"@
    } else if u.consent {
        "✅"@
    } else {
        "⏳"@
    }
}

/// One line of the user list.
pub open spec fn user_line(u: UserEntry) -> Seq<char> {
    status_marker(u) + " ID:"@ + dec_int(u.user_id as int) + " @"@ + or_text(u.username, "—"@)
        + " | "@ + dec_int(u.credits as int) + " cred | "@ + dec_int(u.daily_used as int)
        + " daily | "@ + u.lang@ + " | "@ + or_text(u.last_active, "never"@) + "\n"@
}

/// Marker law: a banned user's line begins with the banned marker, whatever
/// the user's consent; a user who is not banned begins with the consent
/// marker when consenting, else with the pending marker. The three markers
/// differ, so a banned user is never listed as active.
pub proof fn lemma_user_line_marker(u: UserEntry)
    ensures
        u.banned <==> user_line(u)[0] == '\u{1F6AB}',
        !u.banned && u.consent <==> user_line(u)[0] == '\u{2705}',
        !u.banned && !u.consent <==> user_line(u)[0] == '\u{23F3}',
{
    reveal_strlit("\u{1F6AB}");
    reveal_strlit("\u{2705}");
    reveal_strlit("\u{23F3}");
    assert("\u{1F6AB}"@ =~= seq!['\u{1F6AB}']);
    assert("\u{2705}"@ =~= seq!['\u{2705}']);
    assert("\u{23F3}"@ =~= seq!['\u{23F3}']);
}

/// The lines of the first `n` users.
pub open spec fn user_lines(users: Seq<UserEntry>, n: int) -> Seq<char>
    decreases n,
{
    if n <= 0 {
        Seq::empty()
    } else {
        user_lines(users, n - 1) + user_line(users[n - 1])
    }
}

/// The `/users` text.
pub open spec fn user_list_text(users: Seq<UserEntry>, s: Strings) -> Seq<char> {
    s.users_header@ + " ("@ + dec_nat(users.len()) + " total)\n\n"@ + user_lines(
        users,
        users.len() as int,
    )
}

fn push_user_line(out: &mut String, u: &UserEntry)
    ensures
        final(out)@ == old(out)@ + user_line(*u),
{
    if u.banned {
        push_str(out, "🚫");
    } else if u.consent {
        push_str(out, "✅");
    } else {
        push_str(out, "⏳");
    }
    push_str(out, " ID:");
    push_i64(out, u.user_id);
    push_str(out, " @");
    push_or(out, &u.username, "—");
    push_str(out, " | ");
    push_i64(out, u.credits as i64);
    push_str(out, " cred | ");
    push_i64(out, u.daily_used as i64);
    push_str(out, " daily | ");
    push_str(out, u.lang.as_str());
    push_str(out, " | ");
    push_or(out, &u.last_active, "never");
    push_str(out, "\n");
    assert(out@ =~= old(out)@ + user_line(*u));
}

/// Format the user list for display.
pub fn format_user_list(users: &[UserEntry], s: &Strings) -> (r: String)
    ensures
        r@ == user_list_text(users@, *s),
{
    let mut out = String::new();
    push_str(&mut out, s.users_header);
    push_str(&mut out, " (");
    push_u64(&mut out, users.len() as u64);
    push_str(&mut out, " total)\n\n");
    let ghost header = out@;
    let mut i: usize = 0;
    while i < users.len()
        invariant
            i <= users@.len(),
            out@ == header + user_lines(users@, i as int),
        decreases users@.len() - i,
    {
        push_user_line(&mut out, &users[i]);
        i = i + 1;
        assert(out@ =~= header + user_lines(users@, i as int));
    }
    out
}

/// One line of the daily-active list.
pub open spec fn daily_line(e: (String, i64)) -> Seq<char> {
    "📅 "@ + e.0@ + " — "@ + dec_int(e.1 as int) + " users\n"@
}

/// The lines of the first `n` days.
pub open spec fn daily_lines(data: Seq<(String, i64)>, n: int) -> Seq<char>
    decreases n,
{
    if n <= 0 {
        Seq::empty()
    } else {
        daily_lines(data, n - 1) + daily_line(data[n - 1])
    }
}

/// The `/dailyactive` text.
pub open spec fn daily_active_text(data: Seq<(String, i64)>, s: Strings) -> Seq<char> {
    s.daily_active_header@ + "\n\n"@ + daily_lines(data, data.len() as int)
}

/// Format the daily active users for display.
pub fn format_daily_active(data: &[(String, i64)], s: &Strings) -> (r: String)
    ensures
        r@ == daily_active_text(data@, *s),
{
    let mut out = String::new();
    push_str(&mut out, s.daily_active_header);
    push_str(&mut out, "\n\n");
    let ghost header = out@;
    let mut i: usize = 0;
    while i < data.len()
        invariant
            i <= data@.len(),
            out@ == header + daily_lines(data@, i as int),
        decreases data@.len() - i,
    {
        push_str(&mut out, "📅 ");
        push_str(&mut out, data[i].0.as_str());
        push_str(&mut out, " — ");
        push_i64(&mut out, data[i].1);
        push_str(&mut out, " users\n");
        i = i + 1;
        assert(out@ =~= header + daily_lines(data@, i as int));
    }
    out
}

} // verus!
