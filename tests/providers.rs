use moxie_ai::config::Config;
use moxie_ai::conversation::{Message, Role};
use moxie_ai::chat::extract_tool_calls;
use moxie_ai::providers::{
    format_tool_calls, ChatMessage, FunctionCallResponse, OpenAICompatConfig, Provider, ProviderEnv,
    ProviderError, ToolCallResponse,
};

fn no_env() -> ProviderEnv {
    ProviderEnv { openai_api_key: None, groq_api_key: None, openai_base_url: None, local_model: None }
}

#[test]
fn test_config_presets() {
    let openai = OpenAICompatConfig::openai("test-key");
    assert!(openai.base_url.contains("openai.com"));
    assert_eq!(openai.api_key, Some("test-key".to_string()));

    let groq = OpenAICompatConfig::groq("groq-key");
    assert!(groq.base_url.contains("groq.com"));

    let local = OpenAICompatConfig::local("http://localhost:8000/v1", "llama-3");
    assert!(local.api_key.is_none());
    assert_eq!(local.default_model, "llama-3");
}

#[test]
fn test_message_conversion() {
    let msg = Message { role: Role::User, content: "Hello".to_string() };
    let chat_msg = ChatMessage::from(&msg);
    assert_eq!(chat_msg.role, "user");
    assert_eq!(chat_msg.content, "Hello");
}

#[test]
fn test_provider_from_name_ollama() {
    let config = Config {
        host: "127.0.0.1".to_string(),
        port: 3000,
        openai_api_key: None,
        anthropic_api_key: None,
        ollama_url: Some("http://localhost:11434".to_string()),
    };

    let provider = Provider::from_name("ollama", &config, &no_env());
    assert!(provider.is_ok());
    assert_eq!(provider.unwrap().name(), "ollama");
}

#[test]
fn test_provider_from_name_unknown() {
    let config = Config {
        host: "127.0.0.1".to_string(),
        port: 3000,
        openai_api_key: None,
        anthropic_api_key: None,
        ollama_url: None,
    };

    let provider = Provider::from_name("unknown_provider", &config, &no_env());
    assert!(provider.is_err());
}

#[test]
fn test_provider_aliases() {
    let config = Config {
        host: "127.0.0.1".to_string(),
        port: 3000,
        openai_api_key: Some("test-key".to_string()),
        anthropic_api_key: None,
        ollama_url: None,
    };

    let provider = Provider::from_name("gpt", &config, &no_env());
    assert!(provider.is_ok());
}

#[test]
fn provider_selection_details() {
    let config = Config {
        host: "h".to_string(),
        port: 1,
        openai_api_key: None,
        anthropic_api_key: None,
        ollama_url: None,
    };
    match Provider::from_name("OLLAMA", &config, &no_env()) {
        Ok(Provider::Ollama(url)) => assert_eq!(url, "http://localhost:11434"),
        _ => panic!("expected ollama"),
    }
    assert!(matches!(
        Provider::from_name("openai", &config, &no_env()),
        Err(ProviderError::NotConfigured(_))
    ));
    let env = ProviderEnv {
        openai_api_key: Some("env-key".to_string()),
        groq_api_key: Some("g".to_string()),
        openai_base_url: None,
        local_model: Some("mistral".to_string()),
    };
    match Provider::from_name("gpt4", &config, &env) {
        Ok(Provider::OpenAICompat(c)) => assert_eq!(c.api_key.as_deref(), Some("env-key")),
        _ => panic!("expected openai"),
    }
    match Provider::from_name("lmstudio", &config, &env) {
        Ok(p @ Provider::OpenAICompat(_)) => {
            assert_eq!(p.name(), "openai-compatible");
            if let Provider::OpenAICompat(c) = p {
                assert_eq!(c.base_url, "http://localhost:8000/v1");
                assert_eq!(c.default_model, "mistral");
                assert_eq!(c.timeout_secs, 300);
            }
        }
        _ => panic!("expected local"),
    }
    match Provider::from_name("groq", &config, &env) {
        Ok(Provider::OpenAICompat(c)) => assert!(c.base_url.contains("groq.com")),
        _ => panic!("expected groq"),
    }
    match Provider::from_name("mystery", &config, &env) {
        Err(ProviderError::UnknownProvider(n)) => assert_eq!(n, "mystery"),
        _ => panic!("expected unknown"),
    }
}

#[test]
fn native_tool_calls_become_blocks() {
    let calls = vec![
        ToolCallResponse {
            id: "c1".to_string(),
            call_type: "function".to_string(),
            function: FunctionCallResponse { name: "read_file".to_string(), arguments: "{\"path\": \"/a\"}".to_string() },
        },
        ToolCallResponse {
            id: "c2".to_string(),
            call_type: "function".to_string(),
            function: FunctionCallResponse { name: "list_directory".to_string(), arguments: "{}".to_string() },
        },
    ];
    let text = format_tool_calls(&calls);
    assert_eq!(
        text,
        "```tool_call\n{\n  \"name\": \"read_file\",\n  \"arguments\": {\"path\": \"/a\"}\n}\n```\n\n```tool_call\n{\n  \"name\": \"list_directory\",\n  \"arguments\": {}\n}\n```"
    );
    let parsed = extract_tool_calls(&text).unwrap();
    assert_eq!(parsed.len(), 2);
    assert_eq!(parsed[1].name, "list_directory");
}

#[test]
fn request_model_falls_back_to_default() {
    let c = OpenAICompatConfig::groq("k");
    assert_eq!(c.model_for(""), "llama-3.3-70b-versatile");
    assert_eq!(c.model_for("mixtral"), "mixtral");
}

#[test]
fn stored_role_names() {
    assert_eq!(Role::from_name("system"), Role::System);
    assert_eq!(Role::from_name("assistant"), Role::Assistant);
    assert_eq!(Role::from_name("user"), Role::User);
    assert_eq!(Role::from_name("moderator"), Role::User);
}
