//! Language-model providers: which one a name selects, and the settings of each.
use vstd::prelude::*;
use serde_json::Value;
use crate::config::Config;
use crate::conversation::{Message, role_name};
use crate::text::{lower_of, lowercase, push_str, str_eq, string_of};

verus! {

/// Errors of a provider.
#[derive(Debug)]
pub enum ProviderError {
    UnknownProvider(String),
    NotConfigured(String),
    RequestFailed(String),
    InvalidResponse(String),
}

/// The human-readable text of a provider error.
pub open spec fn provider_error_text(e: ProviderError) -> Seq<char> {
    match e {
        ProviderError::UnknownProvider(s) => "Unknown provider: "@ + s@,
        ProviderError::NotConfigured(s) => "Provider not configured: "@ + s@,
        ProviderError::RequestFailed(s) => "Request failed: "@ + s@,
        ProviderError::InvalidResponse(s) => "Invalid response: "@ + s@,
    }
}

fn prefixed(prefix: &str, detail: &String) -> (r: String)
    ensures
        r@ == prefix@ + detail@,
{
    let mut out: Vec<char> = Vec::new();
    push_str(&mut out, prefix);
    push_str(&mut out, detail.as_str());
    string_of(out.as_slice())
}

impl ProviderError {
    /// The error as text.
    pub fn message(&self) -> (r: String)
        ensures
            r@ == provider_error_text(*self),
    {
        match self {
            ProviderError::UnknownProvider(s) => prefixed("Unknown provider: ", s),
            ProviderError::NotConfigured(s) => prefixed("Provider not configured: ", s),
            ProviderError::RequestFailed(s) => prefixed("Request failed: ", s),
            ProviderError::InvalidResponse(s) => prefixed("Invalid response: ", s),
        }
    }
}

/// Settings of an OpenAI-compatible endpoint.
pub struct OpenAICompatConfig {
    /// Base URL of the API, such as `https://api.openai.com/v1`.
    pub base_url: String,
    /// API key; local servers may need none.
    pub api_key: Option<String>,
    pub default_model: String,
    /// Organization identifier (OpenAI).
    pub organization: Option<String>,
    /// Request timeout in seconds.
    pub timeout_secs: u64,
}

impl Default for OpenAICompatConfig {
    fn default() -> (r: Self)
        ensures
            r.base_url@ == "https://api.openai.com/v1"@,
            r.api_key is None,
            r.default_model@ == "gpt-4o-mini"@,
            r.organization is None,
            r.timeout_secs == 120,
    {
        OpenAICompatConfig {
            base_url: String::from_str("https://api.openai.com/v1"),
            api_key: None,
            default_model: String::from_str("gpt-4o-mini"),
            organization: None,
            timeout_secs: 120,
        }
    }
}

impl OpenAICompatConfig {
    /// The model a request uses: the one it names, or the configured default.
    pub fn model_for(&self, model: &str) -> (r: String)
        ensures
            model@.len() == 0 ==> r@ == self.default_model@,
            model@.len() > 0 ==> r@ == model@,
    {
        if model.is_empty() {
            self.default_model.clone()
        } else {
            String::from_str(model)
        }
    }

    /// Settings for OpenAI.
    pub fn openai(api_key: &str) -> (r: Self)
        ensures
            r.base_url@ == "https://api.openai.com/v1"@,
            r.api_key matches Some(k) && k@ == api_key@,
            r.default_model@ == "gpt-4o-mini"@,
            r.organization is None,
            r.timeout_secs == 120,
    {
        OpenAICompatConfig {
            base_url: String::from_str("https://api.openai.com/v1"),
            api_key: Some(String::from_str(api_key)),
            default_model: String::from_str("gpt-4o-mini"),
            organization: None,
            timeout_secs: 120,
        }
    }

    /// Settings for Groq.
    pub fn groq(api_key: &str) -> (r: Self)
        ensures
            r.base_url@ == "https://api.groq.com/openai/v1"@,
            r.api_key matches Some(k) && k@ == api_key@,
            r.default_model@ == "llama-3.3-70b-versatile"@,
            r.organization is None,
            r.timeout_secs == 60,
    {
        OpenAICompatConfig {
            base_url: String::from_str("https://api.groq.com/openai/v1"),
            api_key: Some(String::from_str(api_key)),
            default_model: String::from_str("llama-3.3-70b-versatile"),
            organization: None,
            timeout_secs: 60,
        }
    }

    /// Settings for a local server (vLLM, LM Studio and the like); local inference may be slow.
    pub fn local(base_url: &str, model: &str) -> (r: Self)
        ensures
            r.base_url@ == base_url@,
            r.api_key is None,
            r.default_model@ == model@,
            r.organization is None,
            r.timeout_secs == 300,
    {
        OpenAICompatConfig {
            base_url: String::from_str(base_url),
            api_key: None,
            default_model: String::from_str(model),
            organization: None,
            timeout_secs: 300,
        }
    }
}

/// The block in which a native tool call is handed on: the same fenced form that models are
/// asked to write.
pub open spec fn call_block(name: Seq<char>, arguments: Seq<char>) -> Seq<char> {
    "```tool_call\n{\n  \"name\": \""@ + name + "\",\n  \"arguments\": "@ + arguments + "\n}\n```"@
}

/// The blocks of a list of native tool calls, separated by blank lines.
pub open spec fn call_blocks(calls: Seq<ToolCallResponse>) -> Seq<char>
    decreases calls.len(),
{
    if calls.len() == 0 {
        Seq::empty()
    } else if calls.len() == 1 {
        call_block(calls[0].function.name@, calls[0].function.arguments@)
    } else {
        call_blocks(calls.drop_last()) + "\n\n"@ + call_block(
            calls.last().function.name@,
            calls.last().function.arguments@,
        )
    }
}

/// Renders native tool calls as tool-call blocks, so that the turn reads them as it reads
/// calls written in text.
pub fn format_tool_calls(calls: &Vec<ToolCallResponse>) -> (r: String)
    ensures
        r@ == call_blocks(calls@),
{
    let mut out: Vec<char> = Vec::new();
    let mut i: usize = 0;
    while i < calls.len()
        invariant
            i <= calls@.len(),
            out@ == call_blocks(calls@.take(i as int)),
        decreases calls@.len() - i,
    {
        let ghost prev = out@;
        if i > 0 {
            push_str(&mut out, "\n\n");
        }
        push_str(&mut out, "```tool_call\n{\n  \"name\": \"");
        push_str(&mut out, calls[i].function.name.as_str());
        push_str(&mut out, "\",\n  \"arguments\": ");
        push_str(&mut out, calls[i].function.arguments.as_str());
        push_str(&mut out, "\n}\n```");
        proof {
            let t = calls@.take(i + 1);
            assert(t.drop_last() =~= calls@.take(i as int));
            assert(t.last() == calls@[i as int]);
            if i == 0 {
                assert(calls@.take(0) =~= Seq::<ToolCallResponse>::empty());
            }
            assert(out@ =~= call_blocks(t));
        }
        i = i + 1;
    }
    proof {
        assert(calls@.take(i as int) =~= calls@);
    }
    string_of(out.as_slice())
}

/// A chat message as OpenAI-compatible APIs take it.
pub struct ChatMessage {
    pub role: String,
    pub content: String,
}

impl ChatMessage {
    /// The wire form of a conversation message.
    pub fn from(msg: &Message) -> (r: Self)
        ensures
            r.role@ == role_name(msg.role),
            r.content@ == msg.content@,
    {
        ChatMessage { role: String::from_str(msg.role.as_str()), content: msg.content.clone() }
    }
}

/// A tool offered to an OpenAI-compatible API.
pub struct ToolDef {
    pub tool_type: String,
    pub function: FunctionDef,
}

/// A function offered for tool calling.
pub struct FunctionDef {
    pub name: String,
    pub description: String,
    pub parameters: Option<Value>,
}

/// A tool call in an OpenAI-compatible response.
pub struct ToolCallResponse {
    pub id: String,
    pub call_type: String,
    pub function: FunctionCallResponse,
}

/// The function part of a tool call in a response.
pub struct FunctionCallResponse {
    pub name: String,
    /// The arguments, as JSON text.
    pub arguments: String,
}

/// What the host's environment says about providers.
pub struct ProviderEnv {
    /// `OPENAI_API_KEY`.
    pub openai_api_key: Option<String>,
    /// `GROQ_API_KEY`.
    pub groq_api_key: Option<String>,
    /// `OPENAI_BASE_URL`.
    pub openai_base_url: Option<String>,
    /// `LOCAL_MODEL`.
    pub local_model: Option<String>,
}

/// A selected language-model provider.
pub enum Provider {
    /// A local Ollama server at this base URL.
    Ollama(String),
    /// An OpenAI-compatible API.
    OpenAICompat(OpenAICompatConfig),
}

/// The kinds of provider a lower-cased name selects.
pub open spec fn provider_family(lower: Seq<char>) -> int {
    if lower == "ollama"@ {
        0
    } else if lower == "openai"@ || lower == "gpt"@ || lower == "gpt4"@ {
        1
    } else if lower == "groq"@ {
        2
    } else if lower == "local"@ || lower == "vllm"@ || lower == "lmstudio"@ || lower == "localai"@ {
        3
    } else {
        4
    }
}

/// The text of an optional string, or a fallback.
pub open spec fn or_else(s: Option<String>, fallback: Seq<char>) -> Seq<char> {
    match s {
        Some(v) => v@,
        None => fallback,
    }
}

fn text_or(s: &Option<String>, fallback: &str) -> (r: String)
    ensures
        r@ == or_else(*s, fallback@),
{
    match s {
        Some(v) => v.clone(),
        None => String::from_str(fallback),
    }
}

impl Provider {
    /// Selects a provider by name, case-insensitively: `ollama`; `openai`, `gpt` or `gpt4`
    /// (an API key is needed, from the configuration or the environment); `groq` (a key from
    /// the environment); `local`, `vllm`, `lmstudio` or `localai`. Any other name is unknown.
    pub fn from_name(name: &str, config: &Config, env: &ProviderEnv) -> (r: Result<Self, ProviderError>)
        ensures
            provider_family(lower_of(name@)) == 0 ==> (r matches Ok(Provider::Ollama(url)) && url@
                == or_else(config.ollama_url, "http://localhost:11434"@)),
            provider_family(lower_of(name@)) == 1 ==> match (config.openai_api_key, env.openai_api_key) {
                (None, None) => (r matches Err(ProviderError::NotConfigured(m)) && m@
                    == "OpenAI API key not found. Set OPENAI_API_KEY environment variable."@),
                _ => (r matches Ok(Provider::OpenAICompat(c)) && c.base_url@ == "https://api.openai.com/v1"@
                    && c.timeout_secs == 120 && (c.api_key matches Some(k) && k@ == (match config.openai_api_key {
                    Some(k) => k@,
                    None => env.openai_api_key.unwrap()@,
                }))),
            },
            provider_family(lower_of(name@)) == 2 ==> match env.groq_api_key {
                None => (r matches Err(ProviderError::NotConfigured(m)) && m@
                    == "Groq API key not found. Set GROQ_API_KEY environment variable."@),
                Some(key) => (r matches Ok(Provider::OpenAICompat(c)) && c.base_url@
                    == "https://api.groq.com/openai/v1"@ && (c.api_key matches Some(k) && k@ == key@)),
            },
            provider_family(lower_of(name@)) == 3 ==> (r matches Ok(Provider::OpenAICompat(c))
                && c.base_url@ == or_else(env.openai_base_url, "http://localhost:8000/v1"@)
                && c.default_model@ == or_else(env.local_model, "default"@) && c.api_key is None),
            provider_family(lower_of(name@)) == 4 ==> (r matches Err(ProviderError::UnknownProvider(n))
                && n@ == name@),
    {
        let lower = lowercase(name);
        let l = lower.as_str();
        if str_eq(l, "ollama") {
            Ok(Provider::Ollama(text_or(&config.ollama_url, "http://localhost:11434")))
        } else if str_eq(l, "openai") || str_eq(l, "gpt") || str_eq(l, "gpt4") {
            let key = match &config.openai_api_key {
                Some(k) => k,
                None => match &env.openai_api_key {
                    Some(k) => k,
                    None => {
                        return Err(
                            ProviderError::NotConfigured(
                                String::from_str(
                                    "OpenAI API key not found. Set OPENAI_API_KEY environment variable.",
                                ),
                            ),
                        );
                    },
                },
            };
            Ok(Provider::OpenAICompat(OpenAICompatConfig::openai(key.as_str())))
        } else if str_eq(l, "groq") {
            match &env.groq_api_key {
                Some(k) => Ok(Provider::OpenAICompat(OpenAICompatConfig::groq(k.as_str()))),
                None => Err(
                    ProviderError::NotConfigured(
                        String::from_str(
                            "Groq API key not found. Set GROQ_API_KEY environment variable.",
                        ),
                    ),
                ),
            }
        } else if str_eq(l, "local") || str_eq(l, "vllm") || str_eq(l, "lmstudio") || str_eq(
            l,
            "localai",
        ) {
            let base = text_or(&env.openai_base_url, "http://localhost:8000/v1");
            let model = text_or(&env.local_model, "default");
            Ok(Provider::OpenAICompat(OpenAICompatConfig::local(base.as_str(), model.as_str())))
        } else {
            Err(ProviderError::UnknownProvider(String::from_str(name)))
        }
    }

    /// The provider's name.
    pub fn name(&self) -> (r: &'static str)
        ensures
            self is Ollama ==> r@ == "ollama"@,
            self is OpenAICompat ==> r@ == "openai-compatible"@,
    {
        match self {
            Provider::Ollama(_) => "ollama",
            Provider::OpenAICompat(_) => "openai-compatible",
        }
    }
}

} // verus!
