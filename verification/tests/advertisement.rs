use ollama_rs::pipelines::gorilla;
use ollama_rs::pipelines::tiny_agent;
use ollama_rs::pipelines::RequestParserBase;
use ollama_rs::tools::Tool;

struct SchemaTool {
    name: String,
    description: String,
    parameters: String,
}

impl Tool for SchemaTool {
    fn name(&self) -> String {
        self.name.clone()
    }

    fn description(&self) -> String {
        self.description.clone()
    }

    fn parameters(&self) -> String {
        self.parameters.clone()
    }

    fn run(&self, _arguments: serde_json::Value) -> Result<String, String> {
        Ok(String::new())
    }
}

fn weather_tool() -> SchemaTool {
    SchemaTool {
        name: "get_weather".to_string(),
        description: "Reads the current weather".to_string(),
        parameters: "{\"properties\":{\"city\":{\"type\":\"string\"}},\"type\":\"object\"}"
            .to_string(),
    }
}

#[test]
fn entry_has_the_declared_shape() {
    let entry = tiny_agent::convert_to_openai_tool(&weather_tool());
    assert_eq!(
        entry,
        "{\"function\":{\"description\":\"Reads the current weather\",\"name\":\"get_weather\",\"parameters\":{\"properties\":{\"city\":{\"type\":\"string\"}},\"type\":\"object\"}},\"type\":\"function\"}"
    );
    assert_eq!(entry, gorilla::convert_to_openai_tool(&weather_tool()));
}

#[test]
fn entry_matches_the_reference_json_serializer() {
    // The same declaration built as a JSON value and serialized by the JSON
    // crate must agree byte for byte with the library's serialization.
    let tool = weather_tool();
    let mut function = serde_json::Map::new();
    function.insert(
        "name".to_string(),
        serde_json::Value::String(tool.name()),
    );
    function.insert(
        "description".to_string(),
        serde_json::Value::String(tool.description()),
    );
    function.insert(
        "parameters".to_string(),
        serde_json::from_str::<serde_json::Value>(&tool.parameters()).unwrap(),
    );
    let mut entry = serde_json::Map::new();
    entry.insert(
        "type".to_string(),
        serde_json::Value::String("function".to_string()),
    );
    entry.insert("function".to_string(), serde_json::Value::Object(function));
    let reference = serde_json::to_string(&serde_json::Value::Object(entry)).unwrap();
    assert_eq!(tiny_agent::convert_to_openai_tool(&tool), reference);
}

#[test]
fn entry_escapes_string_values() {
    let tool = SchemaTool {
        name: "say \"hi\"".to_string(),
        description: "line one\nline two\t\\end\u{1}".to_string(),
        parameters: "{}".to_string(),
    };
    let entry = tiny_agent::convert_to_openai_tool(&tool);
    assert_eq!(
        entry,
        "{\"function\":{\"description\":\"line one\\nline two\\t\\\\end\\u0001\",\"name\":\"say \\\"hi\\\"\",\"parameters\":{}},\"type\":\"function\"}"
    );
}

#[test]
fn entry_round_trips_through_a_json_parser() {
    let tool = SchemaTool {
        name: "n\"1\"".to_string(),
        description: "d\n2".to_string(),
        parameters: "{\"k\":[1,2]}".to_string(),
    };
    let entry = tiny_agent::convert_to_openai_tool(&tool);
    let v: serde_json::Value = serde_json::from_str(&entry).unwrap();
    let f = v.get("function").unwrap();
    assert_eq!(v.get("type").unwrap().as_str().unwrap(), "function");
    assert_eq!(f.get("name").unwrap().as_str().unwrap(), tool.name());
    assert_eq!(
        f.get("description").unwrap().as_str().unwrap(),
        tool.description()
    );
    assert_eq!(
        serde_json::to_string(f.get("parameters").unwrap()).unwrap(),
        tool.parameters()
    );
}

#[test]
fn system_message_substitutes_the_placeholder() {
    let parser = tiny_agent::TinyFunctionCall::new();
    let tools = vec![weather_tool()];
    let m = parser.get_system_message(&tools);
    assert_eq!(m.role, ollama_rs::chat::MessageRole::System);
    let expected_list = format!("[{}]", tiny_agent::convert_to_openai_tool(&weather_tool()));
    let expected = tiny_agent::default_system_template().replace("{tools}", &expected_list);
    assert_eq!(m.content, expected);
    assert!(!m.content.contains("{tools}"));
    assert!(tiny_agent::default_system_template().contains("{tools}"));
}

#[test]
fn system_message_with_empty_registry() {
    let parser = gorilla::GorillaFunctionCall::new();
    let tools: Vec<SchemaTool> = Vec::new();
    let m = parser.get_system_message(&tools);
    let expected = gorilla::default_system_template().replace("{tools}", "[]");
    assert_eq!(m.content, expected);
    assert!(gorilla::default_system_template().contains("{tools}"));
}

#[test]
fn list_joins_entries_with_commas() {
    let parser = tiny_agent::TinyFunctionCall::new();
    let a = weather_tool();
    let mut b = weather_tool();
    b.name = "second".to_string();
    let ea = tiny_agent::convert_to_openai_tool(&a);
    let eb = tiny_agent::convert_to_openai_tool(&b);
    let tools = vec![a, b];
    let m = parser.get_system_message(&tools);
    assert!(m.content.contains(&format!("[{},{}]", ea, eb)));
}
