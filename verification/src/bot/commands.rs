//! The bot's slash commands. The application's copy of this type carries
//! the command parser and the descriptions shown in Telegram.

use vstd::prelude::*;

verus! {

/// A slash command with its argument text.
#[derive(Debug, Clone)]
pub enum Command {
    Start,
    Menu,
    Help,
    Ask(String),
    Speak(String),
    Myvoice(String),
    Clone,
    Clones,
    Voices,
    Setvoice(String),
    Presets,
    Shop,
    Teacher(String),
    Lang,
    Credits,
    MyStats,
    Settings,
    Reset,
    Upgrade,
    Ban(String),
    Unban(String),
    Grant(String),
    Stats,
    Users,
    DailyActive,
}

} // verus!
