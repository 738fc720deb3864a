//! Conversational messages and the per-turn response wrapper.

use vstd::prelude::*;

verus! {

/// Who speaks a conversational message.
#[derive(Clone, Copy, PartialEq, Eq, Structural, Debug)]
pub enum MessageRole {
    System,
    User,
    Assistant,
}

/// One message of the conversation: a role and its textual content.
#[derive(Debug)]
pub struct ChatMessage {
    pub role: MessageRole,
    pub content: String,
}

impl ChatMessage {
    /// A system message carrying `content`.
    pub fn system(content: String) -> (m: ChatMessage)
        ensures
            m.role == MessageRole::System,
            m.content@ == content@,
    {
        ChatMessage { role: MessageRole::System, content }
    }

    /// A user message carrying `content`.
    pub fn user(content: String) -> (m: ChatMessage)
        ensures
            m.role == MessageRole::User,
            m.content@ == content@,
    {
        ChatMessage { role: MessageRole::User, content }
    }

    /// An assistant message carrying `content`.
    pub fn assistant(content: String) -> (m: ChatMessage)
        ensures
            m.role == MessageRole::Assistant,
            m.content@ == content@,
    {
        ChatMessage { role: MessageRole::Assistant, content }
    }
}

/// What one parse-and-dispatch turn hands back: a message plus turn metadata.
/// Success and failure share this shape, so the caller never special-cases.
#[derive(Debug)]
pub struct ChatMessageResponse {
    /// Name of the model the turn was addressed to.
    pub model: String,
    /// Creation timestamp as reported by the backend; empty when produced locally.
    pub created_at: String,
    /// The message to append to the conversation.
    pub message: Option<ChatMessage>,
    /// Whether this turn is complete.
    pub done: bool,
}

/// A response produced on the success path: addressed model kept, locally
/// created, done, and carrying an assistant message whose text is `content`.
pub open spec fn assistant_response(r: ChatMessageResponse, model: Seq<char>, content: Seq<char>) -> bool {
    &&& r.model@ == model
    &&& r.created_at@ == Seq::<char>::empty()
    &&& r.done == true
    &&& (match r.message {
        Some(m) => m.role == MessageRole::Assistant && m.content@ == content,
        None => false,
    })
}

/// A response produced on a failure path: no model name, locally created,
/// done, and carrying an assistant message whose text is `content`.
pub open spec fn feedback_response(r: ChatMessageResponse, content: Seq<char>) -> bool {
    assistant_response(r, Seq::<char>::empty(), content)
}

} // verus!
