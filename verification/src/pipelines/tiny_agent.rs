//! The tagged-block dialect: the model emits its intent between
//! `<tool_call>` and `</tool_call>` tags, and receives results and feedback
//! wrapped in `<tool_response>` tags. The tagged body is normalized before
//! structural parsing: embedded line breaks are removed and one level of
//! doubled curly-brace escaping is undone.

use crate::advert::{advert_entry, advert_entry_of, advert_list_spec, advertise_tools};
use crate::chat::{assistant_response, feedback_response, ChatMessage, ChatMessageResponse};
use crate::error::OllamaError;
use crate::intent::{
    intent_diag_of, intent_of, intent_syntax_error, parse_intent, IntentFault,
};
use crate::pipelines::RequestParserBase;
use crate::text::{
    chars_to_string, copy_range, find_from, find_sub, lemma_find_from_some, matches_at,
    replace_all, replace_seq, str_to_chars,
};
use crate::tools::{find_tool, run_view, tool_index, Tool};
use vstd::prelude::*;
use vstd::string::*;

verus! {

/// A parsed `{name, arguments}` intent of this dialect.
pub struct TinyFunctionCallSignature {
    pub name: String,
    pub arguments: serde_json::Value,
}

/// The tagged-block dialect parser. It holds no state; every input is passed
/// per call.
pub struct TinyFunctionCall {}

/// A capability result, wrapped in the fixed response tags of this dialect.
pub open spec fn tiny_wrap(s: Seq<char>) -> Seq<char> {
    "<tool_response>\n"@ + s + "\n</tool_response>\n"@
}

/// A feedback message of this dialect: the diagnostic, wrapped in response
/// tags together with an invitation to retry with corrected syntax.
pub open spec fn tiny_error_content(msg: Seq<char>) -> Seq<char> {
    "<tool_response>\nThere was an error parsing function calls\n Here's the error stack trace: "@
        + msg + "\nPlease call the function again with correct syntax</tool_response>"@
}

/// The diagnostic reported when the tagged body is well-formed JSON but not
/// a `{name, arguments}` object.
pub open spec fn shape_diag() -> Seq<char> {
    "invalid function call format: expected an object with a string `name` and `arguments`"@
}

/// The region between the first open tag and the first close tag after it.
pub open spec fn extract_spec(s: Seq<char>) -> Option<Seq<char>> {
    match find_from(s, "<tool_call>"@, 0) {
        None => None,
        Some(o) => match find_from(s, "</tool_call>"@, o + "<tool_call>"@.len()) {
            None => None,
            Some(c) => Some(s.subrange(o + "<tool_call>"@.len(), c)),
        },
    }
}

/// One level of doubled curly-brace escaping undone: `{{` collapsed to `{`,
/// then `}}` to `}`.
pub open spec fn unescape_braces(s: Seq<char>) -> Seq<char> {
    replace_seq(replace_seq(s, "{{"@, "{"@), "}}"@, "}"@)
}

/// The normalization applied to a tagged body before structural parsing:
/// line breaks are removed, and when the body shows brace doubling — a
/// doubled opening brace occurs — exactly one level of it is undone. A body
/// without doubled opening braces is already single-braced and passes
/// through unchanged, so ordinary JSON whose nesting ends in `}}` is never
/// mangled.
pub open spec fn normalize_spec(s: Seq<char>) -> Seq<char> {
    let t = replace_seq(s, "\n"@, ""@);
    if find_from(t, "{{"@, 0) is Some {
        unescape_braces(t)
    } else {
        t
    }
}

/// Brace-unescaping is the identity on content that is already
/// single-braced — no doubled opening and no doubled closing braces — and
/// is therefore idempotent there: a body that needed no unescaping is
/// handed to structural parsing unchanged, and unescaping an already
/// unescaped single-braced body again changes nothing.
pub proof fn lemma_unescape_single_braced(s: Seq<char>)
    requires
        forall|i: int| !matches_at(s, "{{"@, i),
        forall|i: int| !matches_at(s, "}}"@, i),
    ensures
        unescape_braces(s) == s,
{
    reveal_strlit("{{");
    reveal_strlit("}}");
    reveal_strlit("{");
    reveal_strlit("}");
    crate::text::lemma_replace_absent_identity(s, "{{"@, "{"@);
    crate::text::lemma_replace_absent_identity(s, "}}"@, "}"@);
}

/// What dispatching one capability outcome yields in this dialect: success
/// wraps the result in response tags; a capability failure becomes tagged
/// feedback.
pub open spec fn tiny_outcome_ens(
    model: Seq<char>,
    rr: Result<Seq<char>, Seq<char>>,
    r: Result<ChatMessageResponse, ChatMessageResponse>,
) -> bool {
    match rr {
        Ok(s) => r matches Ok(resp) && assistant_response(resp, model, tiny_wrap(s)),
        Err(e) => r matches Err(resp) && feedback_response(resp, tiny_error_content(e)),
    }
}

/// The template whose `{tools}` placeholder receives the serialized
/// capability declarations of a turn.
pub open spec fn tiny_template() -> Seq<char> {
    "You are a function calling AI agent. You are provided with function signatures within <tools></tools> XML tags. For each function call return a JSON object, with name and arguments, inside <tool_call></tool_call> tags.\n<tools>\n{tools}\n</tools>"@
}

/// The fixed system template of this dialect.
pub fn default_system_template() -> (r: &'static str)
    ensures
        r@ == tiny_template(),
{
    "You are a function calling AI agent. You are provided with function signatures within <tools></tools> XML tags. For each function call return a JSON object, with name and arguments, inside <tool_call></tool_call> tags.\n<tools>\n{tools}\n</tools>"
}

/// The serialized declaration of one capability, in the shared
/// advertisement shape.
pub fn convert_to_openai_tool<T: Tool>(tool: &T) -> (r: String)
    ensures
        r@ == advert_entry_of(*tool),
{
    advert_entry(tool)
}

impl Default for TinyFunctionCall {
    fn default() -> (s: Self)
        ensures
            s == (TinyFunctionCall {  }),
    {
        Self::new()
    }
}

impl TinyFunctionCall {
    pub fn new() -> (s: Self)
        ensures
            s == (TinyFunctionCall {  }),
    {
        TinyFunctionCall {  }
    }

    /// Wraps a capability result in the fixed response tags.
    pub fn format_tool_response(&self, function_response: &str) -> (r: String)
        ensures
            r@ == tiny_wrap(function_response@),
    {
        String::from_str("<tool_response>\n").concat(function_response).concat(
            "\n</tool_response>\n",
        )
    }

    /// Extracts the first tagged region and normalizes it: the text between
    /// the first `<tool_call>` and the first `</tool_call>` after it, with
    /// line breaks removed and, where brace doubling is present, one level
    /// of it undone.
    pub fn extract_tool_call(&self, content: &str) -> (r: Option<String>)
        ensures
            (match extract_spec(content@) {
                Some(b) => r matches Some(t) && t@ == normalize_spec(b),
                None => r is None,
            }),
    {
        let cs = str_to_chars(content);
        let n = cs.len();
        let open = str_to_chars("<tool_call>");
        let close = str_to_chars("</tool_call>");
        proof {
            reveal_strlit("<tool_call>");
            reveal_strlit("</tool_call>");
        }
        match find_sub(&cs, &open, 0) {
            None => None,
            Some(o) => {
                proof {
                    lemma_find_from_some(cs@, open@, 0);
                    assert(o + open@.len() <= n);
                }
                match find_sub(&cs, &close, o + open.len()) {
                    None => None,
                    Some(c) => {
                        proof {
                            lemma_find_from_some(cs@, close@, o + open@.len());
                        }
                        let body = copy_range(&cs, o + open.len(), c);
                        proof {
                            reveal_strlit("\n");
                            reveal_strlit("");
                            reveal_strlit("{{");
                            reveal_strlit("{");
                            reveal_strlit("}}");
                            reveal_strlit("}");
                        }
                        let nl = str_to_chars("\n");
                        let blank = str_to_chars("");
                        let s1 = replace_all(&body, &nl, &blank);
                        let ob = str_to_chars("{{");
                        if find_sub(&s1, &ob, 0).is_some() {
                            let o1 = str_to_chars("{");
                            let s2 = replace_all(&s1, &ob, &o1);
                            let cb = str_to_chars("}}");
                            let c1 = str_to_chars("}");
                            let s3 = replace_all(&s2, &cb, &c1);
                            Some(chars_to_string(&s3))
                        } else {
                            Some(chars_to_string(&s1))
                        }
                    },
                }
            },
        }
    }

    /// Builds the dialect's feedback response; every failure path of this
    /// dialect is routed through here.
    fn feedback(&self, error: OllamaError) -> (r: ChatMessageResponse)
        ensures
            feedback_response(r, tiny_error_content(error.message@)),
    {
        let content = String::from_str(
            "<tool_response>\nThere was an error parsing function calls\n Here's the error stack trace: ",
        ).concat(error.message.as_str()).concat(
            "\nPlease call the function again with correct syntax</tool_response>",
        );
        ChatMessageResponse {
            model: String::new(),
            created_at: String::new(),
            message: Some(ChatMessage::assistant(content)),
            done: true,
        }
    }

    /// Turns one capability outcome into the turn's response: the dialect's
    /// exact success and failure shapes, for every outcome value.
    pub fn dispatch_outcome(&self, model_name: String, result: Result<String, String>) -> (r:
        Result<ChatMessageResponse, ChatMessageResponse>)
        ensures
            tiny_outcome_ens(model_name@, run_view(result), r),
    {
        match result {
            Ok(res) => {
                let content = self.format_tool_response(res.as_str());
                Ok(
                    ChatMessageResponse {
                        model: model_name,
                        created_at: String::new(),
                        message: Some(ChatMessage::assistant(content)),
                        done: true,
                    },
                )
            },
            Err(e) => Err(self.feedback(OllamaError::new(e))),
        }
    }

    /// Invokes the capability and reports its outcome in the dialect's
    /// shapes; the outcome itself is whatever the capability produced.
    pub fn function_call_with_history<T: Tool>(
        &self,
        model_name: String,
        tool_params: serde_json::Value,
        tool: &T,
    ) -> (r: Result<ChatMessageResponse, ChatMessageResponse>)
        ensures
            exists|rr: Result<Seq<char>, Seq<char>>|
                tiny_outcome_ens(model_name@, rr, r),
    {
        let ghost model0 = model_name@;
        let result = tool.run(tool_params);
        let ghost rv = run_view(result);
        let r = self.dispatch_outcome(model_name, result);
        proof {
            assert(tiny_outcome_ens(model0, rv, r));
        }
        r
    }
}

impl<T: Tool> RequestParserBase<T> for TinyFunctionCall {
    /// Tag extraction, normalization, structural parsing, lookup, dispatch —
    /// with the dialect's exact feedback content on every failure path.
    open spec fn parse_ens(
        &self,
        input: Seq<char>,
        model_name: Seq<char>,
        tools: Seq<T>,
        r: Result<ChatMessageResponse, ChatMessageResponse>,
    ) -> bool {
        match extract_spec(input) {
            None => r matches Err(e) && feedback_response(
                e,
                tiny_error_content("Error while extracting <tool_call> tags."@),
            ),
            Some(b) => {
                let body = normalize_spec(b);
                match intent_of(body) {
                    None => r matches Err(e) && feedback_response(
                        e,
                        tiny_error_content(
                            if intent_syntax_error(body) {
                                intent_diag_of(body)
                            } else {
                                shape_diag()
                            },
                        ),
                    ),
                    Some(nm) => match tool_index(tools, nm) {
                        None => r matches Err(e) && feedback_response(
                            e,
                            tiny_error_content("Tool name not found"@),
                        ),
                        Some(_) => exists|rr: Result<Seq<char>, Seq<char>>|
                            tiny_outcome_ens(model_name, rr, r),
                    },
                }
            },
        }
    }

    fn parse(&self, input: &str, model_name: String, tools: &Vec<T>) -> (r: Result<
        ChatMessageResponse,
        ChatMessageResponse,
    >) {
        match self.extract_tool_call(input) {
            None => Err(
                self.feedback(
                    OllamaError::new(
                        String::from_str("Error while extracting <tool_call> tags."),
                    ),
                ),
            ),
            Some(body) => match parse_intent(body.as_str()) {
                Err(IntentFault::Syntax(diag)) => Err(
                    self.feedback(OllamaError::new(diag)),
                ),
                Err(IntentFault::Shape) => Err(
                    self.feedback(
                        OllamaError::new(
                            String::from_str(
                                "invalid function call format: expected an object with a string `name` and `arguments`",
                            ),
                        ),
                    ),
                ),
                Ok(p) => {
                    let sig = TinyFunctionCallSignature { name: p.0, arguments: p.1 };
                    match find_tool(tools, &sig.name) {
                        None => Err(
                            self.feedback(
                                OllamaError::new(String::from_str("Tool name not found")),
                            ),
                        ),
                        Some(i) => self.function_call_with_history(
                            model_name,
                            sig.arguments,
                            &tools[i],
                        ),
                    }
                },
            },
        }
    }

    /// The outbound query gains a first-turn note that no tool results
    /// exist yet.
    open spec fn format_query_ens(&self, input: Seq<char>, r: Seq<char>) -> bool {
        r == input + "\nThis is the first turn and you don't have <tool_results> to analyze yet"@
    }

    fn format_query(&self, input: &str) -> (r: String) {
        String::from_str(input).concat(
            "\nThis is the first turn and you don't have <tool_results> to analyze yet",
        )
    }

    /// Intermediate model text is labelled as an agent iteration.
    open spec fn format_response_ens(&self, response: Seq<char>, r: Seq<char>) -> bool {
        r == "Agent iteration to assist with user query: "@ + response
    }

    fn format_response(&self, response: &str) -> (r: String) {
        String::from_str("Agent iteration to assist with user query: ").concat(response)
    }

    /// The system message is the fixed template with the serialized
    /// capability declarations substituted at the `{tools}` placeholder.
    open spec fn system_message_ens(&self, tools: Seq<T>, m: ChatMessage) -> bool {
        &&& m.role == crate::chat::MessageRole::System
        &&& m.content@ == replace_seq(tiny_template(), "{tools}"@, advert_list_spec(tools))
    }

    fn get_system_message(&self, tools: &Vec<T>) -> (m: ChatMessage) {
        let adv = advertise_tools(tools);
        let tpl = str_to_chars(default_system_template());
        proof {
            reveal_strlit("{tools}");
        }
        let pat = str_to_chars("{tools}");
        let rep = str_to_chars(adv.as_str());
        let content = replace_all(&tpl, &pat, &rep);
        ChatMessage::system(chars_to_string(&content))
    }

    /// Every failure becomes tagged feedback carrying the diagnostic.
    open spec fn error_ens(&self, message: Seq<char>, r: ChatMessageResponse) -> bool {
        feedback_response(r, tiny_error_content(message))
    }

    fn error_handler(&self, error: OllamaError) -> (r: ChatMessageResponse) {
        self.feedback(error)
    }
}

/// In this dialect a successful capability outcome always surfaces as
/// success, and its content is the capability's result wrapped in the fixed
/// response tags — never altered, never left bare.
pub proof fn lemma_tagged_success(
    model: Seq<char>,
    result: Seq<char>,
    r: Result<ChatMessageResponse, ChatMessageResponse>,
)
    requires
        tiny_outcome_ens(model, Ok(result), r),
    ensures
        r matches Ok(resp) && assistant_response(resp, model, tiny_wrap(result)),
{
}

/// For well-formed tagged-block input whose intent names a registered
/// capability, `parse` returns that capability's dispatched outcome: some
/// invocation outcome explains the response, and whenever the capability
/// succeeded, the response is a success whose content is the result wrapped
/// in the fixed response tags.
pub proof fn lemma_tagged_block_dispatch<T: Tool>(
    parser: TinyFunctionCall,
    input: Seq<char>,
    model_name: Seq<char>,
    tools: Seq<T>,
    r: Result<ChatMessageResponse, ChatMessageResponse>,
)
    requires
        parser.parse_ens(input, model_name, tools, r),
        extract_spec(input) matches Some(b) && intent_of(normalize_spec(b)) matches Some(nm)
            && tool_index(tools, nm) is Some,
    ensures
        exists|rr: Result<Seq<char>, Seq<char>>| tiny_outcome_ens(model_name, rr, r),
        forall|s: Seq<char>|
            tiny_outcome_ens(model_name, Ok(s), r) ==> (r matches Ok(resp)
                && assistant_response(resp, model_name, tiny_wrap(s))),
{
}

} // verus!
