//! The filesystem capability: its tools and manifest, and the checks that guard each file
//! operation. Paths are permitted only under an allowed root, writes only when enabled, reads
//! only up to a size limit. The host resolves paths on disk and performs the I/O.
use vstd::prelude::*;
use serde_json::Value;
use crate::json::{object_schema, string_schema};
use crate::manifest::{ConfigFieldBuilder, ConfigFieldType, PluginCategory, PluginManifest, Version};
use crate::text::{chars_of, decimal, push_decimal, push_str, string_of, seq_eq, slice_of};
use crate::tool::{PluginError, ToolDefinition, ToolResult};

verus! {

/// Identifier of the filesystem capability.
pub const FILESYSTEM_ID: &'static str = "moxie.filesystem";

/// Default read limit: 10 MiB.
pub fn default_max_file_size() -> (r: u64)
    ensures
        r == 10485760,
{
    10 * 1024 * 1024
}

/// Settings of the filesystem capability.
pub struct FilesystemConfig {
    /// Roots under which paths may be accessed.
    pub allowed_paths: Vec<String>,
    /// Whether write operations are allowed.
    pub allow_write: bool,
    /// Largest file that may be read, in bytes.
    pub max_file_size: u64,
}

impl Default for FilesystemConfig {
    fn default() -> (r: Self)
        ensures
            r.allowed_paths@.len() == 0,
            !r.allow_write,
            r.max_file_size == 10485760,
    {
        FilesystemConfig {
            allowed_paths: Vec::new(),
            allow_write: false,
            max_file_size: default_max_file_size(),
        }
    }
}

/// Whether canonical path `p` lies under canonical root `root`, component by component:
/// it is the root, or continues it after a separator.
pub open spec fn under_root(p: Seq<char>, root: Seq<char>) -> bool {
    &&& root.len() > 0
    &&& root.len() <= p.len()
    &&& p.subrange(0, root.len() as int) == root
    &&& (p.len() == root.len() || root.last() == '/' || p[root.len() as int] == '/')
}

/// Whether a resolved path is permitted: some roots are configured, the path resolved, and it
/// lies under one of the roots that resolved.
pub open spec fn path_permitted(
    roots_configured: bool,
    target: Option<String>,
    roots: Seq<Option<String>>,
) -> bool {
    &&& roots_configured
    &&& target is Some
    &&& exists|i: int|
        0 <= i < roots.len() && (#[trigger] roots[i]) is Some && under_root(
            target.unwrap()@,
            roots[i].unwrap()@,
        )
}

/// A path that lies under none of the resolved roots is not permitted, so reading it is refused
/// with the access-denied text.
pub proof fn lemma_outside_roots_not_permitted(
    roots_configured: bool,
    target: Option<String>,
    roots: Seq<Option<String>>,
)
    requires
        forall|i: int|
            0 <= i < roots.len() && (#[trigger] roots[i]) is Some && target is Some ==> !under_root(
                target.unwrap()@,
                roots[i].unwrap()@,
            ),
    ensures
        !path_permitted(roots_configured, target, roots),
{
}

/// The refusal of a path outside the allowed roots.
pub open spec fn denied_text(path: Seq<char>) -> Seq<char> {
    "Access denied: path '"@ + path + "' is not in allowed paths"@
}

/// A file operation the capability was asked for, with its arguments.
pub enum FsRequest {
    Read(String),
    Write(String, String),
    List(String),
}

/// The filesystem capability.
pub struct FilesystemPlugin {
    config: FilesystemConfig,
}

fn is_under(p: &Vec<char>, root: &Vec<char>) -> (r: bool)
    ensures
        r == under_root(p@, root@),
{
    if root.len() == 0 || root.len() > p.len() {
        return false;
    }
    let head = slice_of(p, 0, root.len());
    if !seq_eq(&head, root) {
        return false;
    }
    p.len() == root.len() || root[root.len() - 1] == '/' || p[root.len()] == '/'
}

fn denied(path: &str) -> (r: ToolResult)
    ensures
        !r.success,
        r.error matches Some(e) && e@ == denied_text(path@),
{
    let mut out = chars_of("Access denied: path '");
    push_str(&mut out, path);
    push_str(&mut out, "' is not in allowed paths");
    let text = string_of(out.as_slice());
    ToolResult::failure(text.as_str())
}

fn not_found(prefix: &str, path: &str) -> (r: ToolResult)
    ensures
        !r.success,
        r.error matches Some(e) && e@ == prefix@ + path@,
{
    let mut out = chars_of(prefix);
    push_str(&mut out, path);
    let text = string_of(out.as_slice());
    ToolResult::failure(text.as_str())
}

impl FilesystemPlugin {
    /// The capability's settings.
    pub closed spec fn settings(&self) -> FilesystemConfig {
        self.config
    }

    pub fn new(config: FilesystemConfig) -> (r: Self)
        ensures
            r.settings() == config,
    {
        FilesystemPlugin { config }
    }

    /// The capability with default settings: no root, no writes.
    pub fn default_plugin() -> (r: Self)
        ensures
            r.settings().allowed_paths@.len() == 0,
            !r.settings().allow_write,
            r.settings().max_file_size == 10485760,
    {
        FilesystemPlugin::new(FilesystemConfig::default())
    }

    /// The configured roots.
    pub fn allowed_paths(&self) -> (r: &Vec<String>)
        ensures
            *r == self.settings().allowed_paths,
    {
        &self.config.allowed_paths
    }

    /// Whether a path is permitted, given its canonical form (`None` when neither the path nor
    /// its nearest existing ancestor could be resolved) and the canonical form of each
    /// configured root (`None` for a root that could not be resolved).
    pub fn is_path_allowed(&self, canonical: &Option<String>, canonical_roots: &Vec<Option<String>>) -> (r: bool)
        ensures
            r == path_permitted(self.settings().allowed_paths@.len() > 0, *canonical, canonical_roots@),
    {
        if self.config.allowed_paths.len() == 0 {
            return false;
        }
        let target = match canonical {
            Some(t) => chars_of(t.as_str()),
            None => return false,
        };
        let mut i: usize = 0;
        while i < canonical_roots.len()
            invariant
                i <= canonical_roots@.len(),
                self.config.allowed_paths@.len() > 0,
                canonical matches Some(t) && target@ == t@,
                forall|j: int|
                    0 <= j < i ==> !((#[trigger] canonical_roots@[j]) is Some && under_root(
                        target@,
                        canonical_roots@[j].unwrap()@,
                    )),
            decreases canonical_roots@.len() - i,
        {
            if let Some(root) = &canonical_roots[i] {
                let rc = chars_of(root.as_str());
                if is_under(&target, &rc) {
                    assert(canonical_roots@[i as int] is Some && under_root(
                        canonical.unwrap()@,
                        canonical_roots@[i as int].unwrap()@,
                    ));
                    return true;
                }
            }
            i = i + 1;
        }
        false
    }

    /// The checks before a read: the path must be permitted and must exist.
    pub fn read_gate(&self, path: &str, permitted: bool, exists: bool) -> (r: Option<ToolResult>)
        ensures
            !permitted ==> (r matches Some(t) && !t.success && (t.error matches Some(e) && e@
                == denied_text(path@))),
            permitted && !exists ==> (r matches Some(t) && !t.success && (t.error matches Some(e)
                && e@ == "File not found: "@ + path@)),
            permitted && exists ==> r is None,
    {
        if !permitted {
            return Some(denied(path));
        }
        if !exists {
            return Some(not_found("File not found: ", path));
        }
        None
    }

    /// The size check before a read: a file over the limit is not read at all.
    pub fn size_gate(&self, size: u64) -> (r: Option<ToolResult>)
        ensures
            size > self.settings().max_file_size ==> (r matches Some(t) && !t.success && (t.error matches Some(e) && e@
                == "File too large: "@ + decimal(size as nat) + " bytes (max: "@ + decimal(
                self.settings().max_file_size as nat,
            ) + " bytes)"@)),
            size <= self.settings().max_file_size ==> r is None,
    {
        if size > self.config.max_file_size {
            let mut out = chars_of("File too large: ");
            push_u64(&mut out, size);
            push_str(&mut out, " bytes (max: ");
            push_u64(&mut out, self.config.max_file_size);
            push_str(&mut out, " bytes)");
            let text = string_of(out.as_slice());
            return Some(ToolResult::failure(text.as_str()));
        }
        None
    }

    /// The checks before a write: writes must be enabled, whatever the path, and the path must
    /// be permitted.
    pub fn write_gate(&self, path: &str, permitted: bool) -> (r: Option<ToolResult>)
        ensures
            !self.settings().allow_write ==> (r matches Some(t) && !t.success && (t.error matches Some(e)
                && e@ == "Write operations are disabled for this plugin"@)),
            self.settings().allow_write && !permitted ==> (r matches Some(t) && !t.success && (t.error matches Some(e)
                && e@ == denied_text(path@))),
            self.settings().allow_write && permitted ==> r is None,
    {
        if !self.config.allow_write {
            return Some(ToolResult::failure("Write operations are disabled for this plugin"));
        }
        if !permitted {
            return Some(denied(path));
        }
        None
    }

    /// The checks before listing a directory: the path must be permitted and must exist.
    pub fn list_gate(&self, path: &str, permitted: bool, exists: bool) -> (r: Option<ToolResult>)
        ensures
            !permitted ==> (r matches Some(t) && !t.success && (t.error matches Some(e) && e@
                == denied_text(path@))),
            permitted && !exists ==> (r matches Some(t) && !t.success && (t.error matches Some(e)
                && e@ == "Directory not found: "@ + path@)),
            permitted && exists ==> r is None,
    {
        if !permitted {
            return Some(denied(path));
        }
        if !exists {
            return Some(not_found("Directory not found: ", path));
        }
        None
    }

    /// Reads a tool call: the tool must be one of this capability's, with its string arguments
    /// present (`path`, and `content` for a write).
    pub fn plan(&self, tool: &str, path: Option<String>, content: Option<String>) -> (r: Result<FsRequest, PluginError>)
        ensures
            tool@ == "read_file"@ ==> match path {
                Some(p) => (r matches Ok(FsRequest::Read(q)) && q == p),
                None => (r matches Err(PluginError::InvalidParameters(m)) && m@ == "path is required"@),
            },
            tool@ == "list_directory"@ ==> match path {
                Some(p) => (r matches Ok(FsRequest::List(q)) && q == p),
                None => (r matches Err(PluginError::InvalidParameters(m)) && m@ == "path is required"@),
            },
            tool@ == "write_file"@ ==> match (path, content) {
                (Some(p), Some(c)) => (r matches Ok(FsRequest::Write(q, d)) && q == p && d == c),
                (None, _) => (r matches Err(PluginError::InvalidParameters(m)) && m@ == "path is required"@),
                (Some(_), None) => (r matches Err(PluginError::InvalidParameters(m)) && m@
                    == "content is required"@),
            },
            tool@ != "read_file"@ && tool@ != "list_directory"@ && tool@ != "write_file"@ ==> (r matches Err(
                PluginError::ToolNotFound(t),
            ) && t@ == tool@),
    {
        proof {
            reveal_strlit("read_file");
            reveal_strlit("write_file");
            reveal_strlit("list_directory");
            assert("read_file"@.len() == 9);
            assert("write_file"@.len() == 10);
            assert("list_directory"@.len() == 14);
        }
        if crate::text::str_eq(tool, "read_file") {
            match path {
                Some(p) => Ok(FsRequest::Read(p)),
                None => Err(PluginError::InvalidParameters(String::from_str("path is required"))),
            }
        } else if crate::text::str_eq(tool, "write_file") {
            match (path, content) {
                (Some(p), Some(c)) => Ok(FsRequest::Write(p, c)),
                (None, _) => Err(PluginError::InvalidParameters(String::from_str("path is required"))),
                (Some(_), None) => Err(
                    PluginError::InvalidParameters(String::from_str("content is required")),
                ),
            }
        } else if crate::text::str_eq(tool, "list_directory") {
            match path {
                Some(p) => Ok(FsRequest::List(p)),
                None => Err(PluginError::InvalidParameters(String::from_str("path is required"))),
            }
        } else {
            Err(PluginError::ToolNotFound(String::from_str(tool)))
        }
    }

    /// The tools offered: `read_file` and `list_directory`, and `write_file`, which calls for
    /// confirmation, only when writes are enabled.
    pub fn build_tools(&self) -> (r: Vec<ToolDefinition>)
        ensures
            r@.len() == if self.settings().allow_write { 3int } else { 2int },
            r@[0].name@ == "read_file"@,
            r@[1].name@ == "list_directory"@,
            self.settings().allow_write ==> r@[2].name@ == "write_file"@ && r@[2].requires_confirmation,
            !r@[0].requires_confirmation && !r@[1].requires_confirmation,
            forall|i: int| 0 <= i < r@.len() ==> ((#[trigger] r@[i]).plugin_id matches Some(p) && p@ == FILESYSTEM_ID@),
    {
        let mut tools: Vec<ToolDefinition> = Vec::new();
        tools.push(
            ToolDefinition::new("read_file", "Read the contents of a file").with_parameters(
                path_only_schema("The path to the file to read"),
            ).from_plugin(FILESYSTEM_ID),
        );
        tools.push(
            ToolDefinition::new("list_directory", "List files and directories in a path").with_parameters(
                path_only_schema("The directory path to list"),
            ).from_plugin(FILESYSTEM_ID),
        );
        if self.config.allow_write {
            let mut props = serde_json::Map::new();
            props.insert(String::from_str("path"), string_schema("The path to write to"));
            props.insert(String::from_str("content"), string_schema("The content to write"));
            let mut required: Vec<Value> = Vec::new();
            required.push(Value::from(String::from_str("path")));
            required.push(Value::from(String::from_str("content")));
            tools.push(
                ToolDefinition::new("write_file", "Write content to a file").with_parameters(
                    object_schema(props, required),
                ).with_confirmation().from_plugin(FILESYSTEM_ID),
            );
        }
        tools
    }

    /// The capability's manifest.
    pub fn manifest(&self) -> (r: PluginManifest)
        ensures
            r.id@ == FILESYSTEM_ID@,
            r.name@ == "Filesystem"@,
            r.description@ == "Read, write, and list files on the local filesystem"@,
            r.keywords@.len() == 5,
            r.keywords@[0]@ == "files"@,
            r.keywords@[1]@ == "filesystem"@,
            r.keywords@[2]@ == "read"@,
            r.keywords@[3]@ == "write"@,
            r.keywords@[4]@ == "directory"@,
            crate::manifest::manifest_valid(r),
            r.version == (Version { major: 1, minor: 0, patch: 0 }),
            r.category == PluginCategory::Filesystem,
            r.author@ == "Moxie AI"@,
            r.config_schema@.len() == 3,
            r.dependencies@.len() == 0,
            !r.requires_confirmation,
    {
        proof {
            reveal_strlit("moxie.filesystem");
            reveal_strlit("Filesystem");
            reveal_strlit("Read, write, and list files on the local filesystem");
        }
        PluginManifest::new(
            FILESYSTEM_ID,
            "Filesystem",
            "Read, write, and list files on the local filesystem",
        ).with_version(1, 0, 0).with_author("Moxie AI").with_category(
            PluginCategory::Filesystem,
        ).with_keywords(vec!["files", "filesystem", "read", "write", "directory"]).with_config_field(
            ConfigFieldBuilder::new("allowed_paths", ConfigFieldType::PathArray).label(
                "Allowed Paths",
            ).description("Directories the plugin can access").required().build(),
        ).with_config_field(
            ConfigFieldBuilder::new("allow_write", ConfigFieldType::Boolean).label(
                "Allow Write",
            ).description("Enable file write operations").default_value(Value::from(false)).build(),
        ).with_config_field(
            ConfigFieldBuilder::new("max_file_size", ConfigFieldType::Number).label(
                "Max File Size",
            ).description("Maximum file size to read (in bytes)").default_value(
                Value::from(10485760u64),
            ).build(),
        )
    }
}

fn path_only_schema(description: &str) -> Value {
    let mut props = serde_json::Map::new();
    props.insert(String::from_str("path"), string_schema(description));
    let mut required: Vec<Value> = Vec::new();
    required.push(Value::from(String::from_str("path")));
    object_schema(props, required)
}

/// Appends the decimal form of a 64-bit number.
fn push_u64(out: &mut Vec<char>, n: u64)
    ensures
        final(out)@ == old(out)@ + decimal(n as nat),
    decreases n,
{
    if n < 10 {
        push_decimal(out, n as u32);
    } else {
        push_u64(out, n / 10);
        let ghost mid = out@;
        let mut d: Vec<char> = Vec::new();
        push_decimal(&mut d, (n % 10) as u32);
        out.append(&mut d);
        assert(decimal((n % 10) as nat) == seq![crate::text::digit_char((n % 10) as nat)]);
        assert(out@ =~= old(out)@ + decimal(n as nat));
    }
}

} // verus!
