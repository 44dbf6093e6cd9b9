//! The Telegram bot's logic: the decisions behind the command, message and
//! callback handlers, keyboard layouts, and statistics formatting.

pub mod commands;
pub mod keyboards;
pub mod logic;
pub mod stats;

use vstd::prelude::*;

verus! {

/// What free-form input the bot is waiting for.
#[derive(Debug, Clone, Copy, PartialEq, Eq, Structural)]
pub enum PromptKind {
    Ask,
    Speak,
}

/// A per-user interaction the bot started and the user's next message
/// completes.
#[derive(Debug, Clone, Copy, PartialEq, Eq, Structural)]
pub enum PendingAction {
    /// The bot asked the user to type input for a command (the menu flow),
    /// which arrives as the next plain-text message; `kind` selects chat or
    /// spoken output.
    AwaitingPrompt { kind: PromptKind },
}

} // verus!
