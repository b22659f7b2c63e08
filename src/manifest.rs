//! Capability manifests: identity, version and the compatibility rule, configuration schema.
use vstd::prelude::*;
use serde_json::Value;
use crate::text::{chars_of, push_decimal, decimal, string_of};

verus! {

/// Semantic version of a capability.
#[derive(Clone, Copy, Debug, PartialEq, Eq, Structural)]
pub struct Version {
    pub major: u32,
    pub minor: u32,
    pub patch: u32,
}

/// Whether version `v` satisfies the required version `req`: same major, and a minor that is
/// larger, or equal with a patch at least as large.
pub open spec fn compatible(v: Version, req: Version) -> bool {
    v.major == req.major && (v.minor > req.minor || (v.minor == req.minor && v.patch >= req.patch))
}

/// The text `major.minor.patch` of a version.
pub open spec fn version_text(v: Version) -> Seq<char> {
    decimal(v.major as nat) + seq!['.'] + decimal(v.minor as nat) + seq!['.'] + decimal(
        v.patch as nat,
    )
}

impl Version {
    pub fn new(major: u32, minor: u32, patch: u32) -> (r: Self)
        ensures
            r == (Version { major, minor, patch }),
    {
        Version { major, minor, patch }
    }

    /// Checks whether this version satisfies a required version.
    pub fn is_compatible_with(&self, required: &Version) -> (r: bool)
        ensures
            r == compatible(*self, *required),
    {
        if self.major != required.major {
            return false;
        }
        if self.minor < required.minor {
            return false;
        }
        if self.minor == required.minor && self.patch < required.patch {
            return false;
        }
        true
    }

    /// The version written as `major.minor.patch`.
    pub fn to_text(&self) -> (r: String)
        ensures
            r@ == version_text(*self),
    {
        let mut out: Vec<char> = Vec::new();
        push_decimal(&mut out, self.major);
        out.push('.');
        push_decimal(&mut out, self.minor);
        out.push('.');
        push_decimal(&mut out, self.patch);
        string_of(out.as_slice())
    }
}

impl Default for Version {
    fn default() -> (r: Self)
        ensures
            r == (Version { major: 0, minor: 1, patch: 0 }),
    {
        Version::new(0, 1, 0)
    }
}

/// What kind of capability a plugin offers.
#[derive(Clone, Copy, Debug, PartialEq, Eq, Structural)]
pub enum PluginCategory {
    Filesystem,
    Database,
    Office,
    Communication,
    Network,
    Hardware,
    Knowledge,
    Cloud,
    Custom,
}

impl Default for PluginCategory {
    fn default() -> (r: Self)
        ensures
            r == PluginCategory::Custom,
    {
        PluginCategory::Custom
    }
}

/// Platform requirements of a plugin.
#[derive(Clone)]
pub struct PlatformRequirements {
    /// Supported operating systems (empty means all).
    pub os: Vec<String>,
    /// Required external programs or libraries.
    pub dependencies: Vec<String>,
    /// Minimum host version required.
    pub min_moxie_version: Option<Version>,
}

impl Default for PlatformRequirements {
    fn default() -> (r: Self)
        ensures
            r.os@.len() == 0,
            r.dependencies@.len() == 0,
            r.min_moxie_version is None,
    {
        PlatformRequirements { os: Vec::new(), dependencies: Vec::new(), min_moxie_version: None }
    }
}

/// Type of a configuration field.
#[derive(Clone)]
pub enum ConfigFieldType {
    String,
    Number,
    Boolean,
    StringArray,
    Path,
    PathArray,
    /// Stored securely, never logged.
    Secret,
    /// One of the listed options.
    Select(Vec<String>),
}

/// One field of a plugin's configuration schema.
#[derive(Clone)]
pub struct ConfigField {
    /// Field name, as used in the configuration file.
    pub name: String,
    /// Human-readable label.
    pub label: String,
    /// Help text.
    pub description: String,
    pub field_type: ConfigFieldType,
    pub required: bool,
    /// Default value, as JSON.
    pub default: Option<Value>,
    /// Validation pattern for string values.
    pub validation: Option<String>,
}

/// Complete metadata of a plugin.
pub struct PluginManifest {
    /// Unique identifier, such as `moxie.filesystem`.
    pub id: String,
    pub name: String,
    pub version: Version,
    pub description: String,
    pub long_description: Option<String>,
    pub category: PluginCategory,
    pub author: String,
    pub email: Option<String>,
    pub homepage: Option<String>,
    pub license: Option<String>,
    pub keywords: Vec<String>,
    pub platform: PlatformRequirements,
    pub config_schema: Vec<ConfigField>,
    /// Plugins this one needs, each with the minimum version required, in declaration order.
    pub dependencies: Vec<(String, Version)>,
    /// Whether dangerous operations of this plugin call for confirmation (advisory).
    pub requires_confirmation: bool,
    pub icon: Option<String>,
}

/// Whether two manifests agree on everything that registration and dispatch read.
pub open spec fn same_identity(a: PluginManifest, b: PluginManifest) -> bool {
    &&& a.id@ == b.id@
    &&& a.name@ == b.name@
    &&& a.version == b.version
    &&& a.description@ == b.description@
    &&& a.category == b.category
    &&& a.author@ == b.author@
    &&& a.dependencies@ == b.dependencies@
    &&& a.requires_confirmation == b.requires_confirmation
}

impl Clone for PluginManifest {
    fn clone(&self) -> (r: Self)
        ensures
            same_identity(r, *self),
            r.keywords@ == self.keywords@,
            r.config_schema@.len() == self.config_schema@.len(),
    {
        let keywords = self.keywords.clone();
        assert(keywords@ =~= self.keywords@);
        let config_schema = self.config_schema.clone();
        let dependencies = clone_dependencies(&self.dependencies);
        PluginManifest {
            id: self.id.clone(),
            name: self.name.clone(),
            version: self.version,
            description: self.description.clone(),
            long_description: self.long_description.clone(),
            category: self.category,
            author: self.author.clone(),
            email: self.email.clone(),
            homepage: self.homepage.clone(),
            license: self.license.clone(),
            keywords,
            platform: self.platform.clone(),
            config_schema,
            dependencies,
            requires_confirmation: self.requires_confirmation,
            icon: self.icon.clone(),
        }
    }
}

fn clone_dependencies(deps: &Vec<(String, Version)>) -> (r: Vec<(String, Version)>)
    ensures
        r@ == deps@,
{
    let mut out: Vec<(String, Version)> = Vec::new();
    let mut i: usize = 0;
    while i < deps.len()
        invariant
            i <= deps@.len(),
            out@ == deps@.subrange(0, i as int),
        decreases deps@.len() - i,
    {
        let (id, v) = &deps[i];
        out.push((id.clone(), *v));
        i = i + 1;
    }
    assert(out@ =~= deps@);
    out
}

/// Whether a character may stand in a plugin identifier: an ASCII letter or digit, `.`, `-`
/// or `_`.
pub open spec fn id_char(c: char) -> bool {
    ('a' <= c && c <= 'z') || ('A' <= c && c <= 'Z') || ('0' <= c && c <= '9') || c == '.' || c
        == '-' || c == '_'
}

/// What is wrong with a manifest's identity fields, checked in order; `None` when nothing is.
pub open spec fn manifest_problem(id: Seq<char>, name: Seq<char>, description: Seq<char>) -> Option<
    Seq<char>,
> {
    if id.len() == 0 {
        Some("Plugin ID cannot be empty"@)
    } else if name.len() == 0 {
        Some("Plugin name cannot be empty"@)
    } else if description.len() == 0 {
        Some("Plugin description cannot be empty"@)
    } else if !(forall|i: int| 0 <= i < id.len() ==> id_char(#[trigger] id[i])) {
        Some("Plugin ID contains invalid characters"@)
    } else {
        None
    }
}

/// Whether a manifest passes validation.
pub open spec fn manifest_valid(m: PluginManifest) -> bool {
    manifest_problem(m.id@, m.name@, m.description@) is None
}

fn is_id_char(c: char) -> (r: bool)
    ensures
        r == id_char(c),
{
    ('a' <= c && c <= 'z') || ('A' <= c && c <= 'Z') || ('0' <= c && c <= '9') || c == '.' || c
        == '-' || c == '_'
}

fn all_id_chars(s: &String) -> (r: bool)
    ensures
        r == (forall|i: int| 0 <= i < s@.len() ==> id_char(#[trigger] s@[i])),
{
    let cs = chars_of(s.as_str());
    let mut i: usize = 0;
    while i < cs.len()
        invariant
            cs@ == s@,
            i <= cs@.len(),
            forall|j: int| 0 <= j < i ==> id_char(#[trigger] cs@[j]),
        decreases cs@.len() - i,
    {
        if !is_id_char(cs[i]) {
            return false;
        }
        i = i + 1;
    }
    true
}

impl PluginManifest {
    /// A manifest with the given identity and every other field at its default.
    pub fn new(id: &str, name: &str, description: &str) -> (r: Self)
        ensures
            r.id@ == id@,
            r.name@ == name@,
            r.description@ == description@,
            r.version == (Version { major: 0, minor: 1, patch: 0 }),
            r.category == PluginCategory::Custom,
            r.author@.len() == 0,
            r.keywords@.len() == 0,
            r.config_schema@.len() == 0,
            r.dependencies@.len() == 0,
            !r.requires_confirmation,
            r.long_description is None,
            r.email is None,
            r.homepage is None,
            r.license is None,
            r.icon is None,
    {
        PluginManifest {
            id: String::from_str(id),
            name: String::from_str(name),
            version: Version::default(),
            description: String::from_str(description),
            long_description: None,
            category: PluginCategory::default(),
            author: String::new(),
            email: None,
            homepage: None,
            license: None,
            keywords: Vec::new(),
            platform: PlatformRequirements::default(),
            config_schema: Vec::new(),
            dependencies: Vec::new(),
            requires_confirmation: false,
            icon: None,
        }
    }

    pub fn with_version(self, major: u32, minor: u32, patch: u32) -> (r: Self)
        ensures
            r == (PluginManifest { version: Version { major, minor, patch }, ..self }),
    {
        PluginManifest { version: Version::new(major, minor, patch), ..self }
    }

    pub fn with_author(self, author: &str) -> (r: Self)
        ensures
            r.author@ == author@,
            r == (PluginManifest { author: r.author, ..self }),
    {
        PluginManifest { author: String::from_str(author), ..self }
    }

    pub fn with_category(self, category: PluginCategory) -> (r: Self)
        ensures
            r == (PluginManifest { category, ..self }),
    {
        PluginManifest { category, ..self }
    }

    pub fn with_keywords(self, keywords: Vec<&str>) -> (r: Self)
        ensures
            r.keywords@.len() == keywords@.len(),
            forall|i: int| 0 <= i < keywords@.len() ==> (#[trigger] r.keywords@[i])@ == keywords@[i]@,
            r == (PluginManifest { keywords: r.keywords, ..self }),
    {
        let mut out: Vec<String> = Vec::new();
        let mut i: usize = 0;
        while i < keywords.len()
            invariant
                i <= keywords@.len(),
                out@.len() == i,
                forall|j: int| 0 <= j < i ==> (#[trigger] out@[j])@ == keywords@[j]@,
            decreases keywords@.len() - i,
        {
            out.push(String::from_str(keywords[i]));
            i = i + 1;
        }
        PluginManifest { keywords: out, ..self }
    }

    pub fn with_config_field(self, field: ConfigField) -> (r: Self)
        ensures
            r == (PluginManifest { config_schema: r.config_schema, ..self }),
            r.config_schema@ == self.config_schema@.push(field),
    {
        let mut s = self;
        s.config_schema.push(field);
        s
    }

    /// Marks the plugin as one whose operations call for confirmation.
    pub fn requires_confirmation(self) -> (r: Self)
        ensures
            r == (PluginManifest { requires_confirmation: true, ..self }),
    {
        PluginManifest { requires_confirmation: true, ..self }
    }

    /// Checks that id, name and description are non-empty and that the id uses only ASCII
    /// letters and digits, `.`, `-` and `_`.
    pub fn validate(&self) -> (r: Result<(), String>)
        ensures
            r is Ok <==> manifest_valid(*self),
            r matches Err(e) ==> manifest_problem(self.id@, self.name@, self.description@)
                == Some(e@),
    {
        if self.id.as_str().is_empty() {
            return Err(String::from_str("Plugin ID cannot be empty"));
        }
        if self.name.as_str().is_empty() {
            return Err(String::from_str("Plugin name cannot be empty"));
        }
        if self.description.as_str().is_empty() {
            return Err(String::from_str("Plugin description cannot be empty"));
        }
        if !all_id_chars(&self.id) {
            return Err(String::from_str("Plugin ID contains invalid characters"));
        }
        Ok(())
    }
}

/// Builder for configuration fields.
pub struct ConfigFieldBuilder {
    field: ConfigField,
}

impl ConfigFieldBuilder {
    /// The field under construction.
    pub closed spec fn field_view(&self) -> ConfigField {
        self.field
    }

    pub fn new(name: &str, field_type: ConfigFieldType) -> (r: Self)
        ensures
            r.field_view().name@ == name@,
            r.field_view().label@.len() == 0,
            r.field_view().description@.len() == 0,
            r.field_view().field_type == field_type,
            !r.field_view().required,
            r.field_view().default is None,
            r.field_view().validation is None,
    {
        ConfigFieldBuilder {
            field: ConfigField {
                name: String::from_str(name),
                label: String::new(),
                description: String::new(),
                field_type,
                required: false,
                default: None,
                validation: None,
            },
        }
    }

    pub fn label(self, label: &str) -> (r: Self)
        ensures
            r.field_view().label@ == label@,
            r.field_view() == (ConfigField { label: r.field_view().label, ..self.field_view() }),
    {
        ConfigFieldBuilder { field: ConfigField { label: String::from_str(label), ..self.field } }
    }

    pub fn description(self, desc: &str) -> (r: Self)
        ensures
            r.field_view().description@ == desc@,
            r.field_view() == (ConfigField {
                description: r.field_view().description,
                ..self.field_view()
            }),
    {
        ConfigFieldBuilder {
            field: ConfigField { description: String::from_str(desc), ..self.field },
        }
    }

    pub fn required(self) -> (r: Self)
        ensures
            r.field_view() == (ConfigField { required: true, ..self.field_view() }),
    {
        ConfigFieldBuilder { field: ConfigField { required: true, ..self.field } }
    }

    pub fn default_value(self, value: Value) -> (r: Self)
        ensures
            r.field_view() == (ConfigField { default: Some(value), ..self.field_view() }),
    {
        ConfigFieldBuilder { field: ConfigField { default: Some(value), ..self.field } }
    }

    pub fn validation(self, pattern: &str) -> (r: Self)
        ensures
            r.field_view().validation matches Some(p) && p@ == pattern@,
            r.field_view() == (ConfigField {
                validation: r.field_view().validation,
                ..self.field_view()
            }),
    {
        ConfigFieldBuilder {
            field: ConfigField { validation: Some(String::from_str(pattern)), ..self.field },
        }
    }

    pub fn build(self) -> (r: ConfigField)
        ensures
            r == self.field_view(),
    {
        self.field
    }
}

} // verus!
