//! The contract every dialect parser implements. A dialect pins its exact
//! behavior in the `..._ens` specification functions; the executable methods
//! promise those specifications, so callers and dialects stay decoupled while
//! each dialect's behavior is stated precisely.

use crate::chat::{ChatMessage, ChatMessageResponse};
use crate::error::OllamaError;
use crate::tools::Tool;
use vstd::prelude::*;

pub mod gorilla;
pub mod tiny_agent;

verus! {

/// One model family's textual convention for expressing a function-call
/// intent and receiving feedback. Failure is never fatal: every failure
/// becomes a `ChatMessageResponse` carrying model-readable feedback, routed
/// through `error_handler` so formatting stays consistent within a dialect.
pub trait RequestParserBase<T: Tool> {
    /// What `parse` returns on each input, stated by the dialect.
    spec fn parse_ens(
        &self,
        input: Seq<char>,
        model_name: Seq<char>,
        tools: Seq<T>,
        r: Result<ChatMessageResponse, ChatMessageResponse>,
    ) -> bool;

    /// Extracts one function-call intent from raw model text, validates it
    /// against the registry, invokes the matching capability, and reports
    /// the outcome as a message on both success and failure.
    fn parse(&self, input: &str, model_name: String, tools: &Vec<T>) -> (r: Result<
        ChatMessageResponse,
        ChatMessageResponse,
    >)
        ensures
            self.parse_ens(input@, model_name@, tools@, r),
    ;

    /// What `format_query` returns, stated by the dialect.
    spec fn format_query_ens(&self, input: Seq<char>, r: Seq<char>) -> bool;

    /// Adjusts the outbound user query before it is sent to the model.
    fn format_query(&self, input: &str) -> (r: String)
        ensures
            self.format_query_ens(input@, r@),
    ;

    /// What `format_response` returns, stated by the dialect.
    spec fn format_response_ens(&self, response: Seq<char>, r: Seq<char>) -> bool;

    /// Adjusts intermediate model text before it re-enters the conversation.
    fn format_response(&self, response: &str) -> (r: String)
        ensures
            self.format_response_ens(response@, r@),
    ;

    /// What `get_system_message` produces, stated by the dialect.
    spec fn system_message_ens(&self, tools: Seq<T>, m: ChatMessage) -> bool;

    /// Serializes every capability declaration into the dialect's system
    /// template at its placeholder and wraps it as a system message.
    fn get_system_message(&self, tools: &Vec<T>) -> (m: ChatMessage)
        ensures
            self.system_message_ens(tools@, m),
    ;

    /// What `error_handler` produces for a given message, stated by the
    /// dialect.
    spec fn error_ens(&self, message: Seq<char>, r: ChatMessageResponse) -> bool;

    /// Converts any failure into the dialect's feedback message.
    fn error_handler(&self, error: OllamaError) -> (r: ChatMessageResponse)
        ensures
            self.error_ens(error.message@, r),
    ;
}

} // verus!
