use shark::decision::{decide, parse_decision, select, Decision, DecisionError};
use shark::json::Field;
use shark::tools::{parse_functions, ToolCatalog, ToolDescriptor};

fn catalog_with(names: &[&str]) -> ToolCatalog {
    let mut catalog = ToolCatalog::new();
    for name in names {
        catalog.insert(ToolDescriptor::new(name, "A tool.", "{}", Vec::new()));
    }
    catalog
}

#[test]
fn null_function_means_no_tool() {
    let catalog = catalog_with(&["echo", "null"]);
    assert_eq!(parse_decision("{\"function\": null}", &catalog), Ok(Decision::NoTool));
    assert_eq!(parse_decision("{\"function\":null}", &catalog), Ok(Decision::NoTool));
}

#[test]
fn absent_function_means_no_tool() {
    let catalog = catalog_with(&["echo"]);
    assert_eq!(parse_decision("{}", &catalog), Ok(Decision::NoTool));
    assert_eq!(parse_decision("{\"tool\": \"echo\"}", &catalog), Ok(Decision::NoTool));
}

#[test]
fn the_word_null_means_no_tool_in_any_case_and_quoting() {
    let catalog = catalog_with(&["echo", "null", "\"null\""]);
    for verdict in [
        "{\"function\": \"null\"}",
        "{\"function\": \"NULL\"}",
        "{\"function\": \"Null\"}",
        "{\"function\": \"  nUlL \\n\"}",
        "{\"function\": \"\\\"null\\\"\"}",
        "{\"function\": \"'null'\"}",
        "{\"function\": \" 'NULL' \"}",
        "{\"function\": \"\\\"'Null'\\\"\"}",
    ] {
        assert_eq!(parse_decision(verdict, &catalog), Ok(Decision::NoTool));
    }
}

#[test]
fn an_unlisted_tool_means_no_tool() {
    let catalog = catalog_with(&["echo"]);
    assert_eq!(parse_decision("{\"function\": \"ddg_searcher\"}", &catalog), Ok(Decision::NoTool));
    assert_eq!(parse_decision("{\"function\": \"\"}", &catalog), Ok(Decision::NoTool));
    assert_eq!(parse_decision("{\"function\": \"echo2\"}", &catalog), Ok(Decision::NoTool));
    assert_eq!(parse_decision("{\"function\": \"'echo'\"}", &catalog), Ok(Decision::NoTool));
}

#[test]
fn empty_catalog_always_means_no_tool() {
    let catalog = ToolCatalog::new();
    for verdict in ["{\"function\": \"echo\"}", "{\"function\": \"ddg_searcher\"}", "{\"function\": null}", "{}"] {
        assert_eq!(parse_decision(verdict, &catalog), Ok(Decision::NoTool));
    }
}

#[test]
fn a_listed_tool_is_used() {
    let catalog = catalog_with(&["echo", "switcher"]);
    assert_eq!(parse_decision("{\"function\": \"echo\"}", &catalog), Ok(Decision::UseTool("echo".to_string())));
    assert_eq!(parse_decision("{\"function\": \"switcher\"}", &catalog), Ok(Decision::UseTool("switcher".to_string())));
}

#[test]
fn the_name_is_normalised_before_the_lookup() {
    let catalog = catalog_with(&["echo"]);
    assert_eq!(parse_decision("{\"function\": \"  ECHO \"}", &catalog), Ok(Decision::UseTool("echo".to_string())));
    assert_eq!(parse_decision(" { \"function\" : \"Echo\" } ", &catalog), Ok(Decision::UseTool("echo".to_string())));
}

#[test]
fn other_members_are_passed_over() {
    let catalog = catalog_with(&["echo"]);
    assert_eq!(
        parse_decision("{\"reason\": \"it repeats\", \"function\": \"echo\", \"n\": [1, 2]}", &catalog),
        Ok(Decision::UseTool("echo".to_string()))
    );
}

#[test]
fn a_built_catalog_decides_for_its_tools() {
    let (catalog, _) = parse_functions(&vec!["DDG_Searcher".to_string(), "calculator".to_string()]);
    assert_eq!(parse_decision("{\"function\": \"ddg_searcher\"}", &catalog), Ok(Decision::UseTool("ddg_searcher".to_string())));
    assert_eq!(parse_decision("{\"function\": \"calculator\"}", &catalog), Ok(Decision::NoTool));
    assert_eq!(parse_decision("{\"function\": \"rust_toolchain_switcher\"}", &catalog), Ok(Decision::NoTool));
}

#[test]
fn text_that_is_not_json_is_an_error() {
    let catalog = catalog_with(&["echo"]);
    for verdict in ["", "echo", "{\"function\": \"echo\"", "{\"function\": \"echo\"} and more", "{'function': 'echo'}", "I would use echo."] {
        assert_eq!(parse_decision(verdict, &catalog), Err(DecisionError::NotJson));
    }
}

#[test]
fn a_value_that_is_no_object_is_an_error() {
    let catalog = catalog_with(&["echo"]);
    for verdict in ["\"echo\"", "null", "[\"echo\"]", "[{\"function\": \"echo\"}]", "7", "true"] {
        assert_eq!(parse_decision(verdict, &catalog), Err(DecisionError::NotObject));
    }
}

#[test]
fn a_function_that_is_no_string_is_an_error() {
    let catalog = catalog_with(&["echo"]);
    for verdict in ["{\"function\": 1}", "{\"function\": true}", "{\"function\": [\"echo\"]}", "{\"function\": {\"name\": \"echo\"}}"] {
        assert_eq!(parse_decision(verdict, &catalog), Err(DecisionError::NotText));
    }
}

#[test]
fn decide_for_each_kind_of_field() {
    let catalog = catalog_with(&["echo"]);
    assert_eq!(decide(Field::Malformed, &catalog), Err(DecisionError::NotJson));
    assert_eq!(decide(Field::NotObject, &catalog), Err(DecisionError::NotObject));
    assert_eq!(decide(Field::Other, &catalog), Err(DecisionError::NotText));
    assert_eq!(decide(Field::Absent, &catalog), Ok(Decision::NoTool));
    assert_eq!(decide(Field::Null, &catalog), Ok(Decision::NoTool));
    assert_eq!(decide(Field::Text("Echo".to_string()), &catalog), Ok(Decision::UseTool("echo".to_string())));
    assert_eq!(decide(Field::Text("NULL".to_string()), &catalog), Ok(Decision::NoTool));
    assert_eq!(decide(Field::Text("other".to_string()), &catalog), Ok(Decision::NoTool));
}

#[test]
fn select_takes_the_name_as_it_is() {
    let catalog = catalog_with(&["echo", "null", "'echo'"]);
    assert_eq!(select("echo", &catalog), Decision::UseTool("echo".to_string()));
    assert_eq!(select("Echo", &catalog), Decision::NoTool);
    assert_eq!(select(" echo", &catalog), Decision::NoTool);
    assert_eq!(select("null", &catalog), Decision::NoTool);
    assert_eq!(select("\"null\"", &catalog), Decision::NoTool);
    assert_eq!(select("'echo'", &catalog), Decision::UseTool("'echo'".to_string()));
    assert_eq!(select("nulls", &catalog), Decision::NoTool);
}
