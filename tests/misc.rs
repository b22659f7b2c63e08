use moxie_ai::chat::{self, ToolCallSummary};
use moxie_ai::config::{DatabasePluginConfig, LlmConfig, TelemetryConfig};
use moxie_ai::conversation::{Conversation, Role};
use moxie_ai::prompts::{
    PersonaInfo, PromptExamples, PromptManager, PromptTemplate, PromptTools, SystemPrompt,
};
use moxie_ai::routes;

fn template(name: &str) -> PromptTemplate {
    PromptTemplate {
        persona: PersonaInfo { name: name.to_string(), description: String::new() },
        system_prompt: SystemPrompt { content: "Hello".to_string() },
        examples: PromptExamples::default(),
        tools: PromptTools::default(),
    }
}

#[test]
fn prompt_cache_and_paths() {
    let mut pm = PromptManager::new("configs/prompts");
    assert_eq!(pm.template_path("analyst"), "configs/prompts/analyst.toml");
    assert!(pm.get_cached("analyst").is_none());
    pm.cache_template("analyst", template("Analyst"));
    assert_eq!(pm.get_cached("analyst").unwrap().persona.name, "Analyst");
    pm.cache_template("analyst", template("Other"));
    assert_eq!(pm.get_cached("analyst").unwrap().persona.name, "Analyst");
    pm.clear_cache();
    assert!(pm.get_cached("analyst").is_none());
}

#[test]
fn template_names_from_directory_entries() {
    let files = vec![
        "analyst.toml".to_string(),
        "notes.txt".to_string(),
        ".toml".to_string(),
        "support.toml".to_string(),
    ];
    assert_eq!(PromptManager::available_from(&files), vec!["analyst", "support"]);
}

#[test]
fn configuration_defaults() {
    let llm = LlmConfig::default();
    assert_eq!(llm.provider, "ollama");
    assert_eq!(llm.model, "llama3.2");
    let t = TelemetryConfig::default();
    assert!(!t.enabled && t.send_metrics && !t.send_conversations);
    assert_eq!(DatabasePluginConfig::default().allowed_operations, vec!["read"]);
    assert_eq!(chat::default_provider(), "ollama");
    assert_eq!(chat::default_model(), "llama3.2");
}

#[test]
fn conversation_appends_in_order() {
    let mut c = Conversation::new().with_system("sys");
    c.add_user("u");
    c.add_assistant("a");
    assert_eq!(c.id.len(), 36);
    let roles: Vec<Role> = c.messages.iter().map(|m| m.role).collect();
    assert_eq!(roles, vec![Role::System, Role::User, Role::Assistant]);
    assert_eq!(Role::Assistant.as_str(), "assistant");
}

#[test]
fn http_answer_names_tools_used() {
    let engine_response = chat::ChatResponse {
        message: "done".to_string(),
        conversation_id: "c".to_string(),
        tool_calls: vec![
            ToolCallSummary { name: "read_file".to_string(), success: true },
            ToolCallSummary { name: "list_directory".to_string(), success: false },
        ],
    };
    let r = routes::ChatResponse::from_engine(engine_response);
    assert_eq!(r.tools_used, vec!["read_file", "list_directory"]);
    let req = routes::ChatRequest {
        message: "m".to_string(),
        conversation_id: None,
        system_prompt: None,
        persona: Some("analyst".to_string()),
        provider: "ollama".to_string(),
        model: "llama3.2".to_string(),
    };
    assert_eq!(req.into_engine().persona.as_deref(), Some("analyst"));
}
