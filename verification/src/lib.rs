//! Core state of a chat assistant: per-chat conversation history with a
//! bounded window, prompt rendering for a text-completion backend, a
//! reply-production protocol with one-shot duplicate recovery, an
//! interactive settings-dialog state machine, and the registry that owns
//! at most one conversation per chat.
use vstd::prelude::*;

pub mod commands;
pub mod conversation;
pub mod dialog;
pub mod errors;
pub mod laws;
pub mod registry;
pub mod settings;
pub mod text;

verus! {

/// Identifier of a chat session, as the transport numbers them.
pub type ChatId = i64;

/// Identifier of a message inside a chat.
pub type MessageId = i32;

/// How many seconds after it was sent an inbound event is still handled.
pub const FRESHNESS_WINDOW_SECS: u64 = 5;

/// The freshness gate: an inbound event is handled only if it was sent
/// less than [`FRESHNESS_WINDOW_SECS`] before it was received; an event
/// whose send time lies in the future is never discarded.
pub fn is_fresh(now_secs: u64, sent_secs: u64) -> (r: bool)
    ensures
        r == (sent_secs + FRESHNESS_WINDOW_SECS > now_secs),
{
    sent_secs >= now_secs || now_secs - sent_secs < FRESHNESS_WINDOW_SECS
}

} // verus!
