//! The tool contract: what a capability declares, what running a tool returns, and the errors.
use vstd::prelude::*;
use serde_json::Value;
use crate::json::object_schema;
use crate::text::{chars_of, string_of};

verus! {

/// Errors of capability operations.
#[derive(Debug)]
pub enum PluginError {
    ToolNotFound(String),
    InvalidParameters(String),
    ExecutionFailed(String),
    PluginNotFound(String),
    IoError(String),
    JsonError(String),
    PluginDisabled(String),
    InitFailed(String),
    ConfigError(String),
}

/// The human-readable text of an error: a prefix naming its kind, then its detail.
pub open spec fn error_text(e: PluginError) -> Seq<char> {
    match e {
        PluginError::ToolNotFound(s) => "Tool not found: "@ + s@,
        PluginError::InvalidParameters(s) => "Invalid parameters: "@ + s@,
        PluginError::ExecutionFailed(s) => "Execution failed: "@ + s@,
        PluginError::PluginNotFound(s) => "Plugin not found: "@ + s@,
        PluginError::IoError(s) => "IO error: "@ + s@,
        PluginError::JsonError(s) => "JSON error: "@ + s@,
        PluginError::PluginDisabled(s) => "Plugin disabled: "@ + s@,
        PluginError::InitFailed(s) => "Initialization failed: "@ + s@,
        PluginError::ConfigError(s) => "Configuration error: "@ + s@,
    }
}

fn prefixed(prefix: &str, detail: &String) -> (r: String)
    ensures
        r@ == prefix@ + detail@,
{
    let mut out = chars_of(prefix);
    let mut d = chars_of(detail.as_str());
    out.append(&mut d);
    string_of(out.as_slice())
}

impl PluginError {
    /// The error as text, as it is shown to a user or fed back to the model.
    pub fn message(&self) -> (r: String)
        ensures
            r@ == error_text(*self),
    {
        match self {
            PluginError::ToolNotFound(s) => prefixed("Tool not found: ", s),
            PluginError::InvalidParameters(s) => prefixed("Invalid parameters: ", s),
            PluginError::ExecutionFailed(s) => prefixed("Execution failed: ", s),
            PluginError::PluginNotFound(s) => prefixed("Plugin not found: ", s),
            PluginError::IoError(s) => prefixed("IO error: ", s),
            PluginError::JsonError(s) => prefixed("JSON error: ", s),
            PluginError::PluginDisabled(s) => prefixed("Plugin disabled: ", s),
            PluginError::InitFailed(s) => prefixed("Initialization failed: ", s),
            PluginError::ConfigError(s) => prefixed("Configuration error: ", s),
        }
    }
}

/// A tool that a model can call.
pub struct ToolDefinition {
    /// Unique name of the tool, such as `read_file`.
    pub name: String,
    /// What the tool does, for the model to decide when to use it.
    pub description: String,
    /// JSON Schema of the arguments.
    pub parameters: Value,
    /// Whether the tool calls for user confirmation before it runs.
    pub requires_confirmation: bool,
    /// Identifier of the plugin that provides the tool.
    pub plugin_id: Option<String>,
}

impl Clone for ToolDefinition {
    fn clone(&self) -> (r: Self)
        ensures
            r == *self,
    {
        ToolDefinition {
            name: self.name.clone(),
            description: self.description.clone(),
            parameters: self.parameters.clone(),
            requires_confirmation: self.requires_confirmation,
            plugin_id: self.plugin_id.clone(),
        }
    }
}

impl ToolDefinition {
    /// A tool whose arguments schema is an object with no properties.
    pub fn new(name: &str, description: &str) -> (r: Self)
        ensures
            r.name@ == name@,
            r.description@ == description@,
            !r.requires_confirmation,
            r.plugin_id is None,
    {
        ToolDefinition {
            name: String::from_str(name),
            description: String::from_str(description),
            parameters: object_schema(serde_json::Map::new(), Vec::new()),
            requires_confirmation: false,
            plugin_id: None,
        }
    }

    pub fn with_parameters(self, parameters: Value) -> (r: Self)
        ensures
            r == (ToolDefinition { parameters, ..self }),
    {
        ToolDefinition { parameters, ..self }
    }

    pub fn with_confirmation(self) -> (r: Self)
        ensures
            r == (ToolDefinition { requires_confirmation: true, ..self }),
    {
        ToolDefinition { requires_confirmation: true, ..self }
    }

    pub fn from_plugin(self, plugin_id: &str) -> (r: Self)
        ensures
            r.plugin_id matches Some(p) && p@ == plugin_id@,
            r == (ToolDefinition { plugin_id: r.plugin_id, ..self }),
    {
        ToolDefinition { plugin_id: Some(String::from_str(plugin_id)), ..self }
    }
}

/// Metadata of one tool run.
pub struct ToolResultMetadata {
    /// How long the run took, in milliseconds.
    pub duration_ms: Option<u64>,
    /// The plugin that ran the tool.
    pub plugin_id: Option<String>,
}

/// The outcome of running a tool.
pub struct ToolResult {
    pub success: bool,
    /// What the tool produced; JSON `null` for a failed result.
    pub output: Value,
    /// Why the tool failed, for a failed result.
    pub error: Option<String>,
    pub metadata: Option<ToolResultMetadata>,
}

impl ToolResult {
    /// A successful result carrying `output`.
    pub fn success(output: Value) -> (r: Self)
        ensures
            r.success,
            r.output == output,
            r.error is None,
            r.metadata is None,
    {
        ToolResult { success: true, output, error: None, metadata: None }
    }

    /// A failed result with the given error text and a null output.
    pub fn failure(error: &str) -> (r: Self)
        ensures
            !r.success,
            r.error matches Some(e) && e@ == error@,
            r.metadata is None,
    {
        ToolResult {
            success: false,
            output: Value::from(()),
            error: Some(String::from_str(error)),
            metadata: None,
        }
    }

    pub fn with_metadata(self, metadata: ToolResultMetadata) -> (r: Self)
        ensures
            r == (ToolResult { metadata: Some(metadata), ..self }),
    {
        ToolResult { metadata: Some(metadata), ..self }
    }

    /// Records the run's duration, keeping any plugin id already recorded.
    pub fn with_duration(self, duration_ms: u64) -> (r: Self)
        ensures
            r.success == self.success,
            r.output == self.output,
            r.error == self.error,
            r.metadata matches Some(m) && m.duration_ms == Some(duration_ms) && (match self.metadata {
                Some(old_m) => m.plugin_id == old_m.plugin_id,
                None => m.plugin_id is None,
            }),
    {
        let plugin_id = match self.metadata {
            Some(m) => m.plugin_id,
            None => None,
        };
        ToolResult {
            metadata: Some(ToolResultMetadata { duration_ms: Some(duration_ms), plugin_id }),
            ..self
        }
    }
}

/// Whether a tool list declares a tool named `tool`.
pub open spec fn declares(tools: Seq<ToolDefinition>, tool: Seq<char>) -> bool {
    exists|j: int| 0 <= j < tools.len() && (#[trigger] tools[j]).name@ == tool
}

/// Whether a tool list declares a tool named `tool`.
pub fn has_tool(tools: &Vec<ToolDefinition>, tool: &str) -> (r: bool)
    ensures
        r == declares(tools@, tool@),
{
    let target = String::from_str(tool);
    let mut k: usize = 0;
    while k < tools.len()
        invariant
            k <= tools@.len(),
            target@ == tool@,
            forall|j: int| 0 <= j < k ==> (#[trigger] tools@[j]).name@ != tool@,
        decreases tools@.len() - k,
    {
        if tools[k].name == target {
            assert(tools@[k as int].name@ == tool@);
            return true;
        }
        k = k + 1;
    }
    false
}

/// The first declared tool named `tool`, if any.
pub fn get_tool(tools: &Vec<ToolDefinition>, tool: &str) -> (r: Option<ToolDefinition>)
    ensures
        r is Some <==> declares(tools@, tool@),
        r matches Some(t) ==> t.name@ == tool@,
{
    let target = String::from_str(tool);
    let mut k: usize = 0;
    while k < tools.len()
        invariant
            k <= tools@.len(),
            target@ == tool@,
            forall|j: int| 0 <= j < k ==> (#[trigger] tools@[j]).name@ != tool@,
        decreases tools@.len() - k,
    {
        if tools[k].name == target {
            assert(tools@[k as int].name@ == tool@);
            return Some(tools[k].clone());
        }
        k = k + 1;
    }
    None
}

/// The complaints about a configuration: one for each required schema field that the
/// configuration lacks, in schema order.
pub open spec fn missing_fields(schema: Seq<crate::manifest::ConfigField>, present: Seq<Seq<char>>) -> Seq<Seq<char>>
    decreases schema.len(),
{
    if schema.len() == 0 {
        Seq::empty()
    } else {
        let f = schema.last();
        if f.required && !present.contains(f.name@) {
            missing_fields(schema.drop_last(), present).push("Missing required field: "@ + f.name@)
        } else {
            missing_fields(schema.drop_last(), present)
        }
    }
}

/// Checks a configuration against a schema, given the names of the members the configuration
/// has: every required field must be present.
pub fn validate_config(schema: &Vec<crate::manifest::ConfigField>, present: &Vec<String>) -> (r: Result<(), Vec<String>>)
    ensures
        r is Ok <==> missing_fields(schema@, present@.map_values(|s: String| s@)).len() == 0,
        r matches Err(errs) ==> errs@.map_values(|s: String| s@) == missing_fields(schema@, present@.map_values(|s: String| s@)),
{
    let ghost names = present@.map_values(|s: String| s@);
    let mut errors: Vec<String> = Vec::new();
    let mut i: usize = 0;
    while i < schema.len()
        invariant
            i <= schema@.len(),
            names == present@.map_values(|s: String| s@),
            errors@.map_values(|s: String| s@) == missing_fields(schema@.take(i as int), names),
        decreases schema@.len() - i,
    {
        let ghost before = errors@;
        let field = &schema[i];
        if field.required && !contains_name(present, &field.name) {
            let mut out = chars_of("Missing required field: ");
            let mut n = chars_of(field.name.as_str());
            out.append(&mut n);
            errors.push(string_of(out.as_slice()));
            assert(errors@.map_values(|s: String| s@) =~= before.map_values(|s: String| s@).push("Missing required field: "@ + field.name@));
        }
        proof {
            assert(schema@.take(i + 1).drop_last() =~= schema@.take(i as int));
        }
        i = i + 1;
    }
    proof {
        assert(schema@.take(i as int) =~= schema@);
    }
    if errors.len() == 0 {
        Ok(())
    } else {
        Err(errors)
    }
}

fn contains_name(names: &Vec<String>, name: &String) -> (r: bool)
    ensures
        r == names@.map_values(|s: String| s@).contains(name@),
{
    let mut k: usize = 0;
    while k < names.len()
        invariant
            k <= names@.len(),
            forall|j: int| 0 <= j < k ==> (#[trigger] names@[j])@ != name@,
        decreases names@.len() - k,
    {
        if names[k] == *name {
            assert(names@.map_values(|s: String| s@)[k as int] == name@);
            return true;
        }
        k = k + 1;
    }
    assert(!names@.map_values(|s: String| s@).contains(name@)) by {
        let ns = names@.map_values(|s: String| s@);
        if ns.contains(name@) {
            let j = choose|j: int| 0 <= j < ns.len() && #[trigger] ns[j] == name@;
            assert(names@[j]@ == name@);
        }
    }
    false
}

} // verus!
