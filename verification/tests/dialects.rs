use ollama_rs::chat::MessageRole;
use ollama_rs::pipelines::gorilla::GorillaFunctionCall;
use ollama_rs::pipelines::tiny_agent::TinyFunctionCall;
use ollama_rs::pipelines::RequestParserBase;
use ollama_rs::tools::Tool;

/// A capability with fixed attributes and a fixed invocation outcome.
struct StaticTool {
    name: String,
    description: String,
    parameters: String,
    outcome: Result<String, String>,
}

impl StaticTool {
    fn new(name: &str, outcome: Result<String, String>) -> StaticTool {
        StaticTool {
            name: name.to_string(),
            description: format!("capability {}", name),
            parameters: "{\"type\":\"object\",\"properties\":{}}".to_string(),
            outcome,
        }
    }
}

impl Tool for StaticTool {
    fn name(&self) -> String {
        self.name.clone()
    }

    fn description(&self) -> String {
        self.description.clone()
    }

    fn parameters(&self) -> String {
        self.parameters.clone()
    }

    fn run(&self, _arguments: serde_json::Value) -> Result<String, String> {
        self.outcome.clone()
    }
}

fn content_of(resp: &ollama_rs::chat::ChatMessageResponse) -> String {
    resp.message.as_ref().expect("a message is always present").content.clone()
}

#[test]
fn tagged_block_success_scenario() {
    let parser = TinyFunctionCall::new();
    let tools = vec![StaticTool::new("get_weather", Ok("22C".to_string()))];
    let r = parser.parse(
        "<tool_call>{\"name\": \"get_weather\", \"arguments\": {}}</tool_call>",
        "m1".to_string(),
        &tools,
    );
    let resp = r.expect("a registered tool must dispatch");
    assert_eq!(content_of(&resp), "<tool_response>\n22C\n</tool_response>\n");
    assert_eq!(resp.model, "m1");
    assert_eq!(resp.created_at, "");
    assert!(resp.done);
    assert_eq!(
        resp.message.as_ref().unwrap().role,
        MessageRole::Assistant
    );
}

#[test]
fn tagged_block_multiline_and_escaped_body() {
    let parser = TinyFunctionCall::new();
    let tools = vec![StaticTool::new("get_weather", Ok("22C".to_string()))];
    let r = parser.parse(
        "text before <tool_call>\n{{\"name\": \"get_weather\",\n\"arguments\": {}}}\n</tool_call> after",
        "m1".to_string(),
        &tools,
    );
    let resp = r.expect("normalization must undo one level of brace doubling");
    assert_eq!(content_of(&resp), "<tool_response>\n22C\n</tool_response>\n");
}

#[test]
fn tagged_block_malformed_json_scenario() {
    let parser = TinyFunctionCall::new();
    let tools = vec![StaticTool::new("get_weather", Ok("22C".to_string()))];
    let r = parser.parse("<tool_call>not json</tool_call>", "m1".to_string(), &tools);
    let resp = r.expect_err("malformed JSON must fail");
    let content = content_of(&resp);
    assert!(content.starts_with(
        "<tool_response>\nThere was an error parsing function calls\n Here's the error stack trace: "
    ));
    assert!(content.ends_with(
        "\nPlease call the function again with correct syntax</tool_response>"
    ));
    let diag = content
        .strip_prefix("<tool_response>\nThere was an error parsing function calls\n Here's the error stack trace: ")
        .unwrap()
        .strip_suffix("\nPlease call the function again with correct syntax</tool_response>")
        .unwrap();
    assert!(!diag.is_empty());
    assert_eq!(resp.model, "");
    assert!(resp.done);
}

#[test]
fn tagged_block_unknown_tool() {
    let parser = TinyFunctionCall::new();
    let tools = vec![StaticTool::new("other", Ok("x".to_string()))];
    let r = parser.parse(
        "<tool_call>{\"name\": \"get_weather\", \"arguments\": {}}</tool_call>",
        "m1".to_string(),
        &tools,
    );
    let resp = r.expect_err("an unknown tool must fail");
    assert_eq!(
        content_of(&resp),
        "<tool_response>\nThere was an error parsing function calls\n Here's the error stack trace: Tool name not found\nPlease call the function again with correct syntax</tool_response>"
    );
}

#[test]
fn tagged_block_no_delimiter_scenario() {
    let parser = TinyFunctionCall::new();
    let tools = vec![StaticTool::new("get_weather", Ok("22C".to_string()))];
    let r = parser.parse("what is the weather?", "m1".to_string(), &tools);
    let resp = r.expect_err("missing tags must fail");
    assert_eq!(
        content_of(&resp),
        "<tool_response>\nThere was an error parsing function calls\n Here's the error stack trace: Error while extracting <tool_call> tags.\nPlease call the function again with correct syntax</tool_response>"
    );
}

#[test]
fn tagged_block_capability_failure() {
    let parser = TinyFunctionCall::new();
    let tools = vec![StaticTool::new("breaks", Err("boom".to_string()))];
    let r = parser.parse(
        "<tool_call>{\"name\": \"breaks\", \"arguments\": {}}</tool_call>",
        "m1".to_string(),
        &tools,
    );
    let resp = r.expect_err("a failing capability must surface as feedback");
    assert_eq!(
        content_of(&resp),
        "<tool_response>\nThere was an error parsing function calls\n Here's the error stack trace: boom\nPlease call the function again with correct syntax</tool_response>"
    );
}

#[test]
fn extract_tool_call_takes_first_pair_and_normalizes() {
    let parser = TinyFunctionCall::new();
    let body = parser
        .extract_tool_call("<tool_call>{{\"name\": \"x\"}}</tool_call><tool_call>b</tool_call>")
        .expect("a tagged region is present");
    assert_eq!(body, "{\"name\": \"x\"}");
    let single = parser
        .extract_tool_call("<tool_call>{\"name\": \"x\"}</tool_call>")
        .expect("a tagged region is present");
    assert_eq!(single, "{\"name\": \"x\"}");
    assert!(parser.extract_tool_call("<tool_call>only open").is_none());
    assert!(parser.extract_tool_call("only close</tool_call>").is_none());
}

#[test]
fn tiny_format_hooks() {
    let parser = TinyFunctionCall::new();
    assert_eq!(
        RequestParserBase::<StaticTool>::format_query(&parser, "hi"),
        "hi\nThis is the first turn and you don't have <tool_results> to analyze yet"
    );
    assert_eq!(
        RequestParserBase::<StaticTool>::format_response(&parser, "done"),
        "Agent iteration to assist with user query: done"
    );
    assert_eq!(
        parser.format_tool_response("22C"),
        "<tool_response>\n22C\n</tool_response>\n"
    );
}

#[test]
fn fenced_json_success_scenario() {
    let parser = GorillaFunctionCall::new();
    let tools = vec![StaticTool::new("echo", Ok("hello".to_string()))];
    let r = parser.parse(
        "```json\n{\"name\":\"echo\",\"arguments\":{\"a\":1}}\n```",
        "m2".to_string(),
        &tools,
    );
    let resp = r.expect("a registered tool must dispatch");
    assert_eq!(content_of(&resp), "hello");
    assert_eq!(resp.model, "m2");
    assert!(resp.done);
}

#[test]
fn fenced_json_unknown_tool_scenario() {
    let parser = GorillaFunctionCall::new();
    let tools: Vec<StaticTool> = Vec::new();
    let r = parser.parse(
        "```json\n{\"name\":\"missing\",\"arguments\":{}}\n```",
        "m2".to_string(),
        &tools,
    );
    let resp = r.expect_err("an unknown tool must fail");
    assert_eq!(content_of(&resp), "Tool not found");
    assert_eq!(resp.model, "");
}

#[test]
fn fenced_json_without_fences() {
    let parser = GorillaFunctionCall::new();
    let tools = vec![StaticTool::new("echo", Ok("hello".to_string()))];
    let r = parser.parse(
        "  {\"name\":\"echo\",\"arguments\":{}}  ",
        "m2".to_string(),
        &tools,
    );
    let resp = r.expect("bare JSON must also dispatch");
    assert_eq!(content_of(&resp), "hello");
}

#[test]
fn fenced_json_malformed() {
    let parser = GorillaFunctionCall::new();
    let tools = vec![StaticTool::new("echo", Ok("hello".to_string()))];
    let r = parser.parse("```json\nnot json\n```", "m2".to_string(), &tools);
    let resp = r.expect_err("malformed JSON must fail");
    let content = content_of(&resp);
    assert!(!content.is_empty());
    assert!(!content.contains("<tool_response>"));
}

#[test]
fn fenced_json_capability_failure() {
    let parser = GorillaFunctionCall::new();
    let tools = vec![StaticTool::new("breaks", Err("boom".to_string()))];
    let r = parser.parse(
        "{\"name\":\"breaks\",\"arguments\":{}}",
        "m2".to_string(),
        &tools,
    );
    let resp = r.expect_err("a failing capability must surface as feedback");
    assert_eq!(content_of(&resp), "boom");
}

#[test]
fn fenced_json_wrong_shape() {
    let parser = GorillaFunctionCall::new();
    let tools = vec![StaticTool::new("echo", Ok("hello".to_string()))];
    let r = parser.parse("[1, 2, 3]", "m2".to_string(), &tools);
    let resp = r.expect_err("JSON of the wrong shape must fail");
    assert_eq!(
        content_of(&resp),
        "invalid function call format: expected an object with a string `name` and `arguments`"
    );
}

#[test]
fn clean_tool_call_strips_fences_and_whitespace() {
    let parser = GorillaFunctionCall::new();
    assert_eq!(
        parser.clean_tool_call("  ```json\n{\"a\":1}\n```  "),
        "{\"a\":1}"
    );
    assert_eq!(parser.clean_tool_call("{\"a\":1}"), "{\"a\":1}");
    assert_eq!(parser.clean_tool_call("```json```"), "");
}

#[test]
fn gorilla_format_hooks_are_identity() {
    let parser = GorillaFunctionCall::new();
    assert_eq!(RequestParserBase::<StaticTool>::format_query(&parser, "hi"), "hi");
    assert_eq!(
        RequestParserBase::<StaticTool>::format_response(&parser, "done"),
        "done"
    );
}

#[test]
fn error_handler_shapes() {
    let tiny = TinyFunctionCall::new();
    let resp = RequestParserBase::<StaticTool>::error_handler(
        &tiny,
        ollama_rs::error::OllamaError::new("oops".to_string()),
    );
    assert_eq!(
        content_of(&resp),
        "<tool_response>\nThere was an error parsing function calls\n Here's the error stack trace: oops\nPlease call the function again with correct syntax</tool_response>"
    );
    let gorilla = GorillaFunctionCall::new();
    let resp2 = RequestParserBase::<StaticTool>::error_handler(
        &gorilla,
        ollama_rs::error::OllamaError::new("oops".to_string()),
    );
    assert_eq!(content_of(&resp2), "oops");
    assert_eq!(resp2.message.as_ref().unwrap().role, MessageRole::Assistant);
}

#[test]
fn default_builds_the_parsers() {
    let _t: TinyFunctionCall = Default::default();
    let _g: GorillaFunctionCall = Default::default();
}

#[test]
fn chat_message_constructors_carry_role_and_content() {
    let m = ollama_rs::chat::ChatMessage::system("s".to_string());
    assert_eq!(m.role, MessageRole::System);
    assert_eq!(m.content, "s");
    let m = ollama_rs::chat::ChatMessage::user("u".to_string());
    assert_eq!(m.role, MessageRole::User);
    assert_eq!(m.content, "u");
    let m = ollama_rs::chat::ChatMessage::assistant("a".to_string());
    assert_eq!(m.role, MessageRole::Assistant);
    assert_eq!(m.content, "a");
}
