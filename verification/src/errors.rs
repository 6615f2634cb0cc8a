use vstd::prelude::*;

verus! {

/// The domain failures that the conversation core itself decides.
/// Transport and completion-backend failures belong to the embedding
/// program, which wraps them together with these into its own error type.
#[derive(Debug)]
pub enum AppError {
    /// A begin operation hit a chat that already owns a conversation.
    ConversationAlreadyRunning(crate::ChatId),
    /// An operation needed an active conversation and found none.
    NoConversationRunning(crate::ChatId),
    /// A text message arrived whose sender could not be resolved.
    MessageWithoutSender(crate::ChatId, String),
    /// The freshness gate rejected an event that arrived too late.
    MessageTooOld,
    /// A dialog interaction carried a payload that no control uses.
    UnexpectedCallbackQueryData(String),
    /// A dialog interaction carried no payload at all.
    NoCallbackQueryData,
    /// Opening the settings dialog on a chat whose dialog is already open.
    AlreadyOpen(crate::ChatId),
}

} // verus!
