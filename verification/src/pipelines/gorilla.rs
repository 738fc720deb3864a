//! The fenced-JSON dialect: the model emits its intent as a bare JSON
//! object, optionally wrapped in Markdown code fences annotated as JSON.
//! Results and feedback are returned as plain text, without any wrapping
//! markers.

use crate::advert::{advert_entry, advert_entry_of, advert_list_spec, advertise_tools};
use crate::chat::{assistant_response, feedback_response, ChatMessage, ChatMessageResponse};
use crate::error::OllamaError;
use crate::intent::{
    intent_diag_of, intent_of, intent_syntax_error, parse_intent, IntentFault,
};
use crate::pipelines::RequestParserBase;
use crate::text::{
    chars_to_string, replace_all, replace_seq, str_to_chars, strip_prefix_all, strip_suffix_all,
    trim_chars, trim_prefix_spec, trim_spec, trim_suffix_spec,
};
use crate::tools::{find_tool, run_view, tool_index, Tool};
use vstd::prelude::*;
use vstd::string::*;

verus! {

/// A parsed `{name, arguments}` intent of this dialect.
pub struct GorillaFunctionCallSignature {
    pub name: String,
    pub arguments: serde_json::Value,
}

/// The fenced-JSON dialect parser. It holds no state; every input is passed
/// per call.
pub struct GorillaFunctionCall {}

/// The diagnostic reported when the cleaned text is well-formed JSON but not
/// a `{name, arguments}` object.
pub open spec fn gorilla_shape_diag() -> Seq<char> {
    "invalid function call format: expected an object with a string `name` and `arguments`"@
}

/// The cleaning applied before structural parsing: surrounding whitespace
/// trimmed, then leading JSON fence markers and trailing fence markers
/// stripped, then trimmed again.
pub open spec fn clean_spec(s: Seq<char>) -> Seq<char> {
    trim_spec(trim_suffix_spec(trim_prefix_spec(trim_spec(s), "```json"@), "```"@))
}

/// What dispatching one capability outcome yields in this dialect: success
/// returns the capability's result as the bare message content; a capability
/// failure becomes bare feedback.
pub open spec fn gorilla_outcome_ens(
    model: Seq<char>,
    rr: Result<Seq<char>, Seq<char>>,
    r: Result<ChatMessageResponse, ChatMessageResponse>,
) -> bool {
    match rr {
        Ok(s) => r matches Ok(resp) && assistant_response(resp, model, s),
        Err(e) => r matches Err(resp) && feedback_response(resp, e),
    }
}

/// The template whose `{tools}` placeholder receives the serialized
/// capability declarations of a turn.
pub open spec fn gorilla_template() -> Seq<char> {
    "You are a helpful assistant with access to the following functions. Use them if a user request requires it. To call a function, reply with a JSON object holding the function name and its arguments.\n\nFunctions:\n{tools}"@
}

/// The fixed system template of this dialect.
pub fn default_system_template() -> (r: &'static str)
    ensures
        r@ == gorilla_template(),
{
    "You are a helpful assistant with access to the following functions. Use them if a user request requires it. To call a function, reply with a JSON object holding the function name and its arguments.\n\nFunctions:\n{tools}"
}

/// The serialized declaration of one capability, in the shared
/// advertisement shape.
pub fn convert_to_openai_tool<T: Tool>(tool: &T) -> (r: String)
    ensures
        r@ == advert_entry_of(*tool),
{
    advert_entry(tool)
}

impl Default for GorillaFunctionCall {
    fn default() -> (s: Self)
        ensures
            s == (GorillaFunctionCall {  }),
    {
        Self::new()
    }
}

impl GorillaFunctionCall {
    pub fn new() -> (s: Self)
        ensures
            s == (GorillaFunctionCall {  }),
    {
        GorillaFunctionCall {  }
    }

    /// Strips optional Markdown code-fence markers and surrounding
    /// whitespace: trim, drop leading JSON fences, drop trailing fences,
    /// trim again.
    pub fn clean_tool_call(&self, json_str: &str) -> (r: String)
        ensures
            r@ == clean_spec(json_str@),
    {
        let cs = str_to_chars(json_str);
        proof {
            reveal_strlit("```json");
            reveal_strlit("```");
        }
        let t1 = trim_chars(&cs);
        let fence_open = str_to_chars("```json");
        let t2 = strip_prefix_all(&t1, &fence_open);
        let fence = str_to_chars("```");
        let t3 = strip_suffix_all(&t2, &fence);
        let t4 = trim_chars(&t3);
        chars_to_string(&t4)
    }

    /// Builds the dialect's feedback response; every failure path of this
    /// dialect is routed through here. Feedback is the bare diagnostic.
    fn feedback(&self, error: OllamaError) -> (r: ChatMessageResponse)
        ensures
            feedback_response(r, error.message@),
    {
        ChatMessageResponse {
            model: String::new(),
            created_at: String::new(),
            message: Some(ChatMessage::assistant(error.message)),
            done: true,
        }
    }

    /// Turns one capability outcome into the turn's response: the dialect's
    /// exact success and failure shapes, for every outcome value.
    pub fn dispatch_outcome(&self, model_name: String, result: Result<String, String>) -> (r:
        Result<ChatMessageResponse, ChatMessageResponse>)
        ensures
            gorilla_outcome_ens(model_name@, run_view(result), r),
    {
        match result {
            Ok(res) => Ok(
                ChatMessageResponse {
                    model: model_name,
                    created_at: String::new(),
                    message: Some(ChatMessage::assistant(res)),
                    done: true,
                },
            ),
            Err(e) => Err(self.feedback(OllamaError::new(e))),
        }
    }

    /// Invokes the capability and reports its outcome in the dialect's
    /// shapes; the outcome itself is whatever the capability produced.
    pub fn function_call_with_history<T: Tool>(
        &self,
        model_name: String,
        tool_params: serde_json::Value,
        tool: &T,
    ) -> (r: Result<ChatMessageResponse, ChatMessageResponse>)
        ensures
            exists|rr: Result<Seq<char>, Seq<char>>| gorilla_outcome_ens(model_name@, rr, r),
    {
        let ghost model0 = model_name@;
        let result = tool.run(tool_params);
        let ghost rv = run_view(result);
        let r = self.dispatch_outcome(model_name, result);
        proof {
            assert(gorilla_outcome_ens(model0, rv, r));
        }
        r
    }
}

impl<T: Tool> RequestParserBase<T> for GorillaFunctionCall {
    /// Fence cleaning, structural parsing, lookup, dispatch — with the
    /// dialect's exact bare feedback content on every failure path.
    open spec fn parse_ens(
        &self,
        input: Seq<char>,
        model_name: Seq<char>,
        tools: Seq<T>,
        r: Result<ChatMessageResponse, ChatMessageResponse>,
    ) -> bool {
        let body = clean_spec(input);
        match intent_of(body) {
            None => r matches Err(e) && feedback_response(
                e,
                if intent_syntax_error(body) {
                    intent_diag_of(body)
                } else {
                    gorilla_shape_diag()
                },
            ),
            Some(nm) => match tool_index(tools, nm) {
                None => r matches Err(e) && feedback_response(e, "Tool not found"@),
                Some(_) => exists|rr: Result<Seq<char>, Seq<char>>|
                    gorilla_outcome_ens(model_name, rr, r),
            },
        }
    }

    fn parse(&self, input: &str, model_name: String, tools: &Vec<T>) -> (r: Result<
        ChatMessageResponse,
        ChatMessageResponse,
    >) {
        let cleaned = self.clean_tool_call(input);
        match parse_intent(cleaned.as_str()) {
            Err(IntentFault::Syntax(diag)) => Err(self.feedback(OllamaError::new(diag))),
            Err(IntentFault::Shape) => Err(
                self.feedback(
                    OllamaError::new(
                        String::from_str(
                            "invalid function call format: expected an object with a string `name` and `arguments`",
                        ),
                    ),
                ),
            ),
            Ok(p) => {
                let sig = GorillaFunctionCallSignature { name: p.0, arguments: p.1 };
                match find_tool(tools, &sig.name) {
                    None => Err(
                        self.feedback(OllamaError::new(String::from_str("Tool not found"))),
                    ),
                    Some(i) => self.function_call_with_history(
                        model_name,
                        sig.arguments,
                        &tools[i],
                    ),
                }
            },
        }
    }

    /// The outbound query is passed through unchanged.
    open spec fn format_query_ens(&self, input: Seq<char>, r: Seq<char>) -> bool {
        r == input
    }

    fn format_query(&self, input: &str) -> (r: String) {
        String::from_str(input)
    }

    /// Intermediate model text is passed through unchanged.
    open spec fn format_response_ens(&self, response: Seq<char>, r: Seq<char>) -> bool {
        r == response
    }

    fn format_response(&self, response: &str) -> (r: String) {
        String::from_str(response)
    }

    /// The system message is the fixed template with the serialized
    /// capability declarations substituted at the `{tools}` placeholder.
    open spec fn system_message_ens(&self, tools: Seq<T>, m: ChatMessage) -> bool {
        &&& m.role == crate::chat::MessageRole::System
        &&& m.content@ == replace_seq(gorilla_template(), "{tools}"@, advert_list_spec(tools))
    }

    fn get_system_message(&self, tools: &Vec<T>) -> (m: ChatMessage) {
        let adv = advertise_tools(tools);
        let tpl = str_to_chars(default_system_template());
        proof {
            reveal_strlit("{tools}");
        }
        let pat = str_to_chars("{tools}");
        let rep = str_to_chars(adv.as_str());
        let content = replace_all(&tpl, &pat, &rep);
        ChatMessage::system(chars_to_string(&content))
    }

    /// Every failure becomes the bare diagnostic as message content.
    open spec fn error_ens(&self, message: Seq<char>, r: ChatMessageResponse) -> bool {
        feedback_response(r, message)
    }

    fn error_handler(&self, error: OllamaError) -> (r: ChatMessageResponse) {
        self.feedback(error)
    }
}

/// When the cleaned fenced-JSON input parses to an intent whose tool name is
/// absent from the registry, dispatch always fails, and the feedback content
/// is exactly `Tool not found`, with no wrapping markers.
pub proof fn lemma_fenced_unknown_tool<T: Tool>(
    parser: GorillaFunctionCall,
    input: Seq<char>,
    model_name: Seq<char>,
    tools: Seq<T>,
    r: Result<ChatMessageResponse, ChatMessageResponse>,
)
    requires
        parser.parse_ens(input, model_name, tools, r),
        intent_of(clean_spec(input)) matches Some(nm) && tool_index(tools, nm) is None,
    ensures
        r matches Err(resp) && feedback_response(resp, "Tool not found"@),
{
}

} // verus!
