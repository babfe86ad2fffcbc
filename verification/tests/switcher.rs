use shark::json::Field;
use shark::tools::rust_toolchain_switcher::RustToolchainSwitcher;
use shark::tools::ToolError;

fn text(s: &str) -> serde_json::Value {
    serde_json::Value::String(s.to_string())
}

#[test]
fn switcher_name_and_description() {
    let tool = RustToolchainSwitcher::default();
    assert_eq!(tool.name(), "rust_toolchain_switcher");
    assert_eq!(tool.description(), "Switch rust toolchain between 'stable', 'nightly' and others");
    let descriptor = tool.descriptor();
    assert_eq!(descriptor.name, tool.name());
    assert_eq!(descriptor.description, tool.description());
    assert_eq!(descriptor.parameters, tool.parameters());
}

#[test]
fn switcher_parameters_are_the_schema() {
    let schema: serde_json::Value = serde_json::from_str(&RustToolchainSwitcher::default().parameters()).unwrap();
    let mut toolchain = serde_json::Map::new();
    toolchain.insert("type".to_string(), text("string"));
    toolchain.insert("description".to_string(), text("The toolchain you want to switch"));
    let mut properties = serde_json::Map::new();
    properties.insert("toolchain".to_string(), serde_json::Value::Object(toolchain));
    let mut expected = serde_json::Map::new();
    expected.insert("type".to_string(), text("object"));
    expected.insert("properties".to_string(), serde_json::Value::Object(properties));
    expected.insert("required".to_string(), serde_json::Value::Array(vec![text("toolchain")]));
    assert_eq!(schema, serde_json::Value::Object(expected));
}

#[test]
fn command_switches_to_the_toolchain_of_the_input() {
    let tool = RustToolchainSwitcher::default();
    assert_eq!(
        tool.command("{\"toolchain\": \"nightly\"}"),
        Ok(vec!["rustup".to_string(), "default".to_string(), "nightly".to_string()])
    );
    assert_eq!(
        tool.command("{\"other\": 1, \"toolchain\": \"1.75.0\"}"),
        Ok(vec!["rustup".to_string(), "default".to_string(), "1.75.0".to_string()])
    );
}

#[test]
fn command_keeps_the_toolchain_as_written() {
    let tool = RustToolchainSwitcher::default();
    assert_eq!(
        tool.command("{\"toolchain\": \" Stable \"}"),
        Ok(vec!["rustup".to_string(), "default".to_string(), " Stable ".to_string()])
    );
}

#[test]
fn command_refuses_input_without_a_toolchain() {
    let tool = RustToolchainSwitcher::default();
    for input in ["{}", "{\"toolchain\": null}", "{\"toolchain\": 3}", "{\"question\": \"use nightly\"}", "\"nightly\"", "[\"nightly\"]", "nightly", ""] {
        assert_eq!(tool.command(input), Err(ToolError::MissingParameter));
    }
}

#[test]
fn command_from_each_kind_of_field() {
    let tool = RustToolchainSwitcher::default();
    assert_eq!(
        tool.command_from(Field::Text("beta".to_string())),
        Ok(vec!["rustup".to_string(), "default".to_string(), "beta".to_string()])
    );
    for field in [Field::Malformed, Field::NotObject, Field::Absent, Field::Null, Field::Other] {
        assert_eq!(tool.command_from(field), Err(ToolError::MissingParameter));
    }
}

#[test]
fn response_holds_output_and_error() {
    let tool = RustToolchainSwitcher::default();
    let report = tool.response(b"info: default toolchain set to 'nightly'\n".to_vec(), b"warning: \"x\"".to_vec()).unwrap();
    let value: serde_json::Value = serde_json::from_str(&report).unwrap();
    let mut expected = serde_json::Map::new();
    expected.insert("result".to_string(), text("info: default toolchain set to 'nightly'\n"));
    expected.insert("error".to_string(), text("warning: \"x\""));
    assert_eq!(value, serde_json::Value::Object(expected));
}

#[test]
fn response_of_a_silent_command() {
    let tool = RustToolchainSwitcher::default();
    let report = tool.response(Vec::new(), Vec::new()).unwrap();
    let value: serde_json::Value = serde_json::from_str(&report).unwrap();
    assert_eq!(value["result"], text(""));
    assert_eq!(value["error"], text(""));
    assert_eq!(value.as_object().unwrap().len(), 2);
    assert_ne!(report, "");
}

#[test]
fn response_refuses_output_that_is_not_text() {
    let tool = RustToolchainSwitcher::default();
    assert_eq!(tool.response(vec![0xff, 0xfe], Vec::new()), Err(ToolError::OutputNotText));
    assert_eq!(tool.response(b"ok".to_vec(), vec![0xc3]), Err(ToolError::OutputNotText));
    assert_eq!(tool.response(vec![0xed, 0xa0, 0x80], vec![0xff]), Err(ToolError::OutputNotText));
}

#[test]
fn response_decodes_utf8() {
    let tool = RustToolchainSwitcher::default();
    let report = tool.response("héllo 🦈".as_bytes().to_vec(), Vec::new()).unwrap();
    let value: serde_json::Value = serde_json::from_str(&report).unwrap();
    assert_eq!(value["result"], text("héllo 🦈"));
}

#[test]
fn response_from_the_encoder() {
    let tool = RustToolchainSwitcher::default();
    assert_eq!(tool.response_from(Some("{}".to_string())), Ok("{}".to_string()));
    assert_eq!(tool.response_from(None), Err(ToolError::Encoding));
}
