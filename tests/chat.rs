use moxie_ai::builtin;
use moxie_ai::chat::{
    build_system_prompt, conversation_id_for, extract_tool_calls, resolve_persona, tool_result_of,
    ChatEngine, ChatError, ChatRequest, TurnStep, MAX_TOOL_ITERATIONS,
};
use moxie_ai::conversation::{Message, Role};
use moxie_ai::providers::ProviderError;
use moxie_ai::tool::{PluginError, ToolDefinition, ToolResult};

fn request(message: &str) -> ChatRequest {
    ChatRequest {
        message: message.to_string(),
        conversation_id: None,
        system_prompt: None,
        persona: None,
        provider: "ollama".to_string(),
        model: "llama3.2".to_string(),
    }
}

#[test]
fn test_extract_tool_calls() {
    let content = r#"I'll read that file for you.

```tool_call
{
  "name": "read_file",
  "arguments": {
    "path": "/tmp/test.txt"
  }
}
```"#;

    let calls = extract_tool_calls(content);
    assert!(calls.is_some());
    let calls = calls.unwrap();
    assert_eq!(calls.len(), 1);
    assert_eq!(calls[0].name, "read_file");
}

#[test]
fn test_no_tool_calls() {
    let content = "Just a regular response with no tool calls.";
    let calls = extract_tool_calls(content);
    assert!(calls.is_none());
}

#[test]
fn extraction_keeps_arguments_and_skips_malformed_blocks() {
    let content = "First:\n```tool_call\n{\"name\": \"a\", \"arguments\": {\"x\": 1}}\n```\nthen\n```tool_call\n{not json}\n```\nand\n```tool_call\n{\"name\": \"b\"}\n```";
    let calls = extract_tool_calls(content).unwrap();
    assert_eq!(calls.len(), 1);
    assert_eq!(calls[0].name, "a");
    assert_eq!(calls[0].arguments["x"], 1);
}

#[test]
fn extraction_finds_calls_in_order() {
    let content = "```tool_call\n{\"name\": \"one\", \"arguments\": {}}\n```\n```tool_call\n{\"name\": \"two\", \"arguments\": {}}\n```";
    let calls = extract_tool_calls(content).unwrap();
    let names: Vec<&str> = calls.iter().map(|c| c.name.as_str()).collect();
    assert_eq!(names, vec!["one", "two"]);
    assert_ne!(calls[0].id, calls[1].id);
}

#[test]
fn unclosed_block_and_plain_json_fence_are_not_calls() {
    assert!(extract_tool_calls("```tool_call\n{\"name\": \"a\", \"arguments\": {}}").is_none());
    assert!(extract_tool_calls("```json\n{\"name\": \"a\", \"arguments\": {}}\n```").is_none());
    assert!(extract_tool_calls("").is_none());
}

#[test]
fn unknown_persona_falls_back_with_note() {
    let p = resolve_persona("spreadsheet_guru");
    assert!(p.starts_with(builtin::DEFAULT));
    assert!(p.contains("spreadsheet_guru"));
    assert_eq!(
        p,
        format!("{}\n\nNote: Unknown persona 'spreadsheet_guru', using default.", builtin::DEFAULT)
    );
}

#[test]
fn persona_names_and_aliases_are_case_insensitive() {
    assert_eq!(resolve_persona("ANALYST"), builtin::BUSINESS_ANALYST);
    assert_eq!(resolve_persona("Business_Analyst"), builtin::BUSINESS_ANALYST);
    assert_eq!(resolve_persona("support"), builtin::TECH_SUPPORT);
    assert_eq!(resolve_persona("Data"), builtin::DATA_ENTRY);
    assert_eq!(resolve_persona("default"), builtin::DEFAULT);
}

#[test]
fn prompt_precedence_explicit_then_persona_then_default() {
    let engine = ChatEngine::new().with_system_prompt("Engine prompt");
    let mut req = request("hi");
    assert_eq!(engine.system_prompt_for(&req), "Engine prompt");
    req.persona = Some("tech_support".to_string());
    assert_eq!(engine.system_prompt_for(&req), builtin::TECH_SUPPORT);
    req.system_prompt = Some("Explicit".to_string());
    assert_eq!(engine.system_prompt_for(&req), "Explicit");
}

#[test]
fn system_prompt_lists_tools_and_schemas() {
    assert_eq!(build_system_prompt("Base", &vec![], "[]"), "Base");
    let tools = vec![
        ToolDefinition::new("read_file", "Read a file"),
        ToolDefinition::new("list_directory", "List a directory"),
    ];
    let p = build_system_prompt("Base", &tools, "[SCHEMAS]");
    let expected = "Base\n\n## Available Tools\n\nYou have access to the following tools:\n\n- read_file: Read a file\n- list_directory: List a directory\n\nTo use a tool, respond with a JSON block in this format:\n```tool_call\n{\n  \"name\": \"tool_name\",\n  \"arguments\": {}\n}\n```\n\nTool schemas:\n```json\n[SCHEMAS]\n```";
    assert_eq!(p, expected);
}

#[test]
fn dispatch_errors_become_failed_results() {
    let r = tool_result_of(Err(PluginError::ToolNotFound("nonexistent_tool".to_string())));
    assert!(!r.success);
    assert_eq!(r.error.as_deref(), Some("Tool not found: nonexistent_tool"));
    let ok = tool_result_of(Ok(ToolResult::success(serde_json::Value::from("x"))));
    assert!(ok.success);
}

#[test]
fn turn_starts_with_prompt_history_and_message() {
    let engine = ChatEngine::new();
    let history = vec![Message::new(Role::User, "earlier"), Message::new(Role::Assistant, "reply")];
    let turn = engine.start_turn(&request("now"), "conv-1".to_string(), history, &vec![], "[]");
    assert_eq!(turn.messages.len(), 4);
    assert_eq!(turn.messages[0].role, Role::System);
    assert_eq!(turn.messages[0].content, builtin::DEFAULT);
    assert_eq!(turn.messages[1].content, "earlier");
    assert_eq!(turn.messages[3].role, Role::User);
    assert_eq!(turn.messages[3].content, "now");
    assert_eq!(turn.conversation_id, "conv-1");
}

#[test]
fn model_that_always_calls_a_tool_hits_the_bound() {
    let engine = ChatEngine::new();
    let mut turn = engine.start_turn(&request("go"), "c".to_string(), vec![], &vec![], "[]");
    let stub = "```tool_call\n{\"name\": \"loop_tool\", \"arguments\": {}}\n```";
    let mut round_trips = 0;
    let failure = loop {
        if let Err(e) = turn.begin_round() {
            break e;
        }
        round_trips += 1;
        match turn.on_response(stub.to_string()) {
            TurnStep::CallTools(calls) => {
                for call in calls {
                    let r = tool_result_of(Err(PluginError::ToolNotFound(call.name.clone())));
                    turn.record_call(&call.name, r.success, "{}", "failed");
                }
            }
            TurnStep::Finish(_) => panic!("stub always calls a tool"),
        }
    };
    assert!(matches!(failure, ChatError::MaxIterationsExceeded));
    assert_eq!(round_trips, MAX_TOOL_ITERATIONS);
    assert_eq!(round_trips, 10);
    assert_eq!(turn.tool_calls.len(), 10);
}

#[test]
fn tool_free_response_finishes_the_turn() {
    let engine = ChatEngine::new();
    let mut turn = engine.start_turn(&request("go"), "c".to_string(), vec![], &vec![], "[]");
    turn.begin_round().ok().unwrap();
    turn.record_call("read_file", true, "{\"path\": \"a\"}", "{\"success\": true}");
    assert_eq!(turn.messages.len(), 4);
    assert_eq!(turn.messages[2].content, "Tool call: read_file with arguments: {\"path\": \"a\"}");
    assert_eq!(turn.messages[3].role, Role::System);
    assert_eq!(turn.messages[3].content, "Tool result for read_file: {\"success\": true}");
    match turn.on_response("All done.".to_string()) {
        TurnStep::Finish(text) => {
            let response = turn.finish(text);
            assert_eq!(response.message, "All done.");
            assert_eq!(response.tool_calls.len(), 1);
            assert!(response.tool_calls[0].success);
        }
        TurnStep::CallTools(_) => panic!("no call in the response"),
    }
}

#[test]
fn conversation_id_is_kept_or_made() {
    let mut req = request("x");
    let fresh = conversation_id_for(&req);
    assert_eq!(fresh.len(), 36);
    req.conversation_id = Some("given".to_string());
    assert_eq!(conversation_id_for(&req), "given");
}

#[test]
fn turn_errors_have_texts() {

    assert_eq!(ChatError::MaxIterationsExceeded.message(), "Max tool iterations exceeded");
    assert_eq!(ChatError::Memory("locked".to_string()).message(), "Memory error: locked");
    assert_eq!(
        ChatError::Plugin(PluginError::ToolNotFound("x".to_string())).message(),
        "Plugin error: Tool not found: x"
    );
    assert_eq!(
        ChatError::Provider(ProviderError::UnknownProvider("y".to_string())).message(),
        "Provider error: Unknown provider: y"
    );
}

#[test]
fn arguments_must_be_an_object() {
    let content = "```tool_call\n{\"name\": \"a\", \"arguments\": [1, 2]}\n```\n```tool_call\n{\"name\": 7, \"arguments\": {}}\n```\n```tool_call\n{\"name\": \"b\", \"arguments\": {\"k\": \"v\"}}\n```";
    let calls = extract_tool_calls(content).unwrap();
    assert_eq!(calls.len(), 1);
    assert_eq!(calls[0].name, "b");
    assert_eq!(calls[0].arguments["k"], "v");
    assert!(extract_tool_calls("```tool_call\n{\"name\": \"a\", \"arguments\": \"x\"}\n```").is_none());
}

#[test]
fn block_content_is_trimmed_of_unicode_white_space() {
    let content = "```tool_call\u{a0}\u{2003}{\"name\": \"a\", \"arguments\": {}}\u{3000}\n```";
    let calls = extract_tool_calls(content).unwrap();
    assert_eq!(calls[0].name, "a");
}

#[test]
fn fresh_conversation_ids_are_hyphenated_uuids() {
    let id = conversation_id_for(&request("x"));
    for (i, c) in id.chars().enumerate() {
        if i == 8 || i == 13 || i == 18 || i == 23 {
            assert_eq!(c, '-');
        } else {
            assert!(c.is_ascii_digit() || ('a'..='f').contains(&c));
        }
    }
}
