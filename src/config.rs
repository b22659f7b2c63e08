//! Application and client configuration values.
use vstd::prelude::*;

verus! {

/// Server settings and provider credentials.
pub struct Config {
    pub host: String,
    pub port: u16,
    pub openai_api_key: Option<String>,
    pub anthropic_api_key: Option<String>,
    pub ollama_url: Option<String>,
}

/// Client identification.
pub struct ClientInfo {
    pub name: String,
    /// Industry vertical, for templates.
    pub industry: Option<String>,
    pub id: Option<String>,
}

/// Language-model settings of a client.
pub struct LlmConfig {
    pub provider: String,
    pub model: String,
    /// Name of the environment variable that holds the API key.
    pub api_key_env: Option<String>,
    pub endpoint: Option<String>,
}

impl Default for LlmConfig {
    fn default() -> (r: Self)
        ensures
            r.provider@ == "ollama"@,
            r.model@ == "llama3.2"@,
            r.api_key_env is None,
            r.endpoint is None,
    {
        LlmConfig {
            provider: String::from_str("ollama"),
            model: String::from_str("llama3.2"),
            api_key_env: None,
            endpoint: None,
        }
    }
}

/// Value of a switch that is on unless configured off.
pub fn default_true() -> (r: bool)
    ensures
        r,
{
    true
}

/// Office integration switches.
pub struct OfficePluginConfig {
    pub excel_enabled: bool,
    pub word_enabled: bool,
    pub powerpoint_enabled: bool,
    pub outlook_enabled: bool,
}

impl Default for OfficePluginConfig {
    fn default() -> (r: Self)
        ensures
            r.excel_enabled && r.word_enabled && !r.powerpoint_enabled && !r.outlook_enabled,
    {
        OfficePluginConfig {
            excel_enabled: true,
            word_enabled: true,
            powerpoint_enabled: false,
            outlook_enabled: false,
        }
    }
}

/// Filesystem settings of a client.
pub struct FilesystemPluginConfig {
    pub allowed_paths: Vec<String>,
    pub cloud_providers: Vec<String>,
    pub allow_write: bool,
}

impl Default for FilesystemPluginConfig {
    fn default() -> (r: Self)
        ensures
            r.allowed_paths@.len() == 0,
            r.cloud_providers@.len() == 0,
            !r.allow_write,
    {
        FilesystemPluginConfig {
            allowed_paths: Vec::new(),
            cloud_providers: Vec::new(),
            allow_write: false,
        }
    }
}

/// A database connection of a client.
pub struct DatabaseConnection {
    pub name: String,
    /// Database kind: `sqlite`, `postgres`, `mysql` or `sqlserver`.
    pub db_type: String,
    /// Name of the environment variable that holds the connection string.
    pub connection_string_env: String,
}

/// Database settings of a client.
pub struct DatabasePluginConfig {
    pub connections: Vec<DatabaseConnection>,
    /// Allowed operations: `read`, `write`.
    pub allowed_operations: Vec<String>,
}

impl Default for DatabasePluginConfig {
    fn default() -> (r: Self)
        ensures
            r.connections@.len() == 0,
            r.allowed_operations@.len() == 1,
            r.allowed_operations@[0]@ == "read"@,
    {
        let mut ops: Vec<String> = Vec::new();
        ops.push(String::from_str("read"));
        DatabasePluginConfig { connections: Vec::new(), allowed_operations: ops }
    }
}

/// One document source of the knowledge base.
pub struct KnowledgeSource {
    pub path: String,
    /// Source kind: `directory`, `file` or `url`.
    pub source_type: String,
    /// File patterns to include, for directories.
    pub patterns: Vec<String>,
}

/// Knowledge base settings.
pub struct KnowledgeConfig {
    pub enabled: bool,
    pub sources: Vec<KnowledgeSource>,
}

/// Security settings of a client.
pub struct SecurityConfig {
    /// Tools that call for confirmation before they run.
    pub require_confirmation_for: Vec<String>,
    pub audit_log_path: Option<String>,
    pub log_tool_calls: bool,
    pub max_tokens_per_request: Option<u32>,
}

/// Telemetry settings.
pub struct TelemetryConfig {
    pub enabled: bool,
    pub dashboard_url: Option<String>,
    pub api_key_env: Option<String>,
    pub send_metrics: bool,
    pub send_usage: bool,
    pub send_errors: bool,
    /// Conversation content is never sent unless this is set.
    pub send_conversations: bool,
}

impl Default for TelemetryConfig {
    fn default() -> (r: Self)
        ensures
            !r.enabled,
            r.dashboard_url is None,
            r.api_key_env is None,
            r.send_metrics && r.send_usage && r.send_errors,
            !r.send_conversations,
    {
        TelemetryConfig {
            enabled: false,
            dashboard_url: None,
            api_key_env: None,
            send_metrics: true,
            send_usage: true,
            send_errors: true,
            send_conversations: false,
        }
    }
}

} // verus!
