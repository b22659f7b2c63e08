use moxie_ai::manifest::{ConfigFieldBuilder, ConfigFieldType};
use moxie_ai::tool::{get_tool, has_tool, validate_config, PluginError, ToolDefinition, ToolResult};
use serde_json::Value;

#[test]
fn test_tool_definition() {
    let tool = ToolDefinition::new("my_tool", "Does something");
    assert_eq!(tool.name, "my_tool");
    assert_eq!(tool.description, "Does something");
}

#[test]
fn test_tool_result() {
    let success = ToolResult::success(Value::from("output"));
    assert!(success.success);
    assert!(success.error.is_none());

    let failure = ToolResult::failure("something went wrong");
    assert!(!failure.success);
    assert!(failure.error.is_some());
}

#[test]
fn test_plugin_ext() {
    let tools = vec![ToolDefinition::new("test_tool", "A test tool")];
    assert!(has_tool(&tools, "test_tool"));
    assert!(!has_tool(&tools, "nonexistent"));
}

#[test]
fn tool_definition_default_schema_and_builders() {
    let tool = ToolDefinition::new("t", "d");
    assert_eq!(tool.parameters["type"], "object");
    assert!(tool.parameters["properties"].as_object().unwrap().is_empty());
    assert!(tool.parameters["required"].as_array().unwrap().is_empty());
    let tool = tool.with_confirmation().from_plugin("p.id");
    assert!(tool.requires_confirmation);
    assert_eq!(tool.plugin_id.as_deref(), Some("p.id"));
    let found = get_tool(&vec![tool], "t").unwrap();
    assert_eq!(found.plugin_id.as_deref(), Some("p.id"));
}

#[test]
fn failure_result_has_null_output() {
    let failure = ToolResult::failure("boom");
    assert!(failure.output.is_null());
    assert_eq!(failure.error.as_deref(), Some("boom"));
}

#[test]
fn duration_keeps_plugin_id() {
    let r = ToolResult::success(Value::from(1u64)).with_duration(42);
    let m = r.metadata.unwrap();
    assert_eq!(m.duration_ms, Some(42));
    assert!(m.plugin_id.is_none());
}

#[test]
fn error_messages_name_their_kind() {
    assert_eq!(PluginError::ToolNotFound("x".to_string()).message(), "Tool not found: x");
    assert_eq!(PluginError::InvalidParameters("p".to_string()).message(), "Invalid parameters: p");
    assert_eq!(PluginError::ExecutionFailed("e".to_string()).message(), "Execution failed: e");
    assert_eq!(PluginError::PluginNotFound("a".to_string()).message(), "Plugin not found: a");
    assert_eq!(PluginError::IoError("i".to_string()).message(), "IO error: i");
    assert_eq!(PluginError::JsonError("j".to_string()).message(), "JSON error: j");
    assert_eq!(PluginError::PluginDisabled("d".to_string()).message(), "Plugin disabled: d");
    assert_eq!(PluginError::InitFailed("f".to_string()).message(), "Initialization failed: f");
    assert_eq!(PluginError::ConfigError("c".to_string()).message(), "Configuration error: c");
}

#[test]
fn config_validation_reports_missing_required_fields() {
    let schema = vec![
        ConfigFieldBuilder::new("allowed_paths", ConfigFieldType::PathArray).required().build(),
        ConfigFieldBuilder::new("allow_write", ConfigFieldType::Boolean).build(),
        ConfigFieldBuilder::new("token", ConfigFieldType::Secret).required().build(),
    ];
    assert!(validate_config(&schema, &vec!["allowed_paths".to_string(), "token".to_string()]).is_ok());
    let errs = validate_config(&schema, &vec!["allow_write".to_string()]).unwrap_err();
    assert_eq!(
        errs,
        vec![
            "Missing required field: allowed_paths".to_string(),
            "Missing required field: token".to_string()
        ]
    );
}
