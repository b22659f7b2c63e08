//! The REST capability: services and endpoints declared in configuration become tools. This
//! module turns a call of such a tool into a request plan (method, URL, query, headers, body,
//! authentication) and a response into a tool result; the host sends the request.
use vstd::prelude::*;
use serde_json::Value;
use crate::json::object_schema;
use crate::manifest::{ConfigFieldBuilder, ConfigFieldType, PluginCategory, PluginManifest, Version};
use crate::text::{chars_of, decimal, find_from, matches_at, occurs_at, push_decimal, push_str, seq_eq, slice_of, str_eq, string_of};
use crate::tool::{PluginError, ToolDefinition, ToolResult};

verus! {

/// Identifier of the REST capability.
pub const API_ID: &'static str = "moxie.api";

/// How a service authenticates.
#[derive(Clone, Copy, Debug, PartialEq, Eq, Structural)]
pub enum AuthType {
    /// No authentication.
    NoAuth,
    /// An API key in a header.
    ApiKey,
    /// A bearer token.
    Bearer,
    /// `username:password` basic authentication.
    Basic,
    /// A query parameter.
    QueryParam,
}

impl Default for AuthType {
    fn default() -> (r: Self)
        ensures
            r == AuthType::NoAuth,
    {
        AuthType::NoAuth
    }
}

/// HTTP method of an endpoint.
#[derive(Clone, Copy, Debug, PartialEq, Eq, Structural)]
pub enum HttpMethod {
    GET,
    POST,
    PUT,
    PATCH,
    DELETE,
}

impl Default for HttpMethod {
    fn default() -> (r: Self)
        ensures
            r == HttpMethod::GET,
    {
        HttpMethod::GET
    }
}

/// The name of a method.
pub open spec fn method_name(m: HttpMethod) -> Seq<char> {
    match m {
        HttpMethod::GET => "GET"@,
        HttpMethod::POST => "POST"@,
        HttpMethod::PUT => "PUT"@,
        HttpMethod::PATCH => "PATCH"@,
        HttpMethod::DELETE => "DELETE"@,
    }
}

/// Whether requests with this method carry a body.
pub open spec fn has_body(m: HttpMethod) -> bool {
    m == HttpMethod::POST || m == HttpMethod::PUT || m == HttpMethod::PATCH
}

impl HttpMethod {
    /// The method's name.
    pub fn as_str(&self) -> (r: &'static str)
        ensures
            r@ == method_name(*self),
    {
        match self {
            HttpMethod::GET => "GET",
            HttpMethod::POST => "POST",
            HttpMethod::PUT => "PUT",
            HttpMethod::PATCH => "PATCH",
            HttpMethod::DELETE => "DELETE",
        }
    }
}

/// Type of a parameter when none is given.
pub fn default_string() -> (r: String)
    ensures
        r@ == "string"@,
{
    String::from_str("string")
}

/// Location of a parameter when none is given.
pub fn default_query() -> (r: String)
    ensures
        r@ == "query"@,
{
    String::from_str("query")
}

/// Request timeout of a service when none is given, in seconds.
pub fn default_timeout() -> (r: u64)
    ensures
        r == 30,
{
    30
}

/// A parameter of an endpoint.
pub struct ParamDef {
    /// JSON type: `string`, `number`, `boolean`, `object` or `array`.
    pub param_type: String,
    pub required: bool,
    pub description: String,
    pub default: Option<Value>,
    /// Where the parameter goes: `query`, `path`, `header` or `body`.
    pub location: String,
}

/// An endpoint of a service.
pub struct EndpointDef {
    /// Tool name part; the tool is named `{service id}_{name}`.
    pub name: String,
    pub method: HttpMethod,
    /// Path, with `{param}` placeholders.
    pub path: String,
    pub description: String,
    /// Parameters by name, in declaration order.
    pub params: Vec<(String, ParamDef)>,
    pub response_type: Option<String>,
    pub requires_confirmation: bool,
}

/// A REST service.
pub struct ServiceDef {
    pub id: String,
    pub name: String,
    pub base_url: String,
    pub auth_type: AuthType,
    /// Header of API-key authentication.
    pub auth_header: Option<String>,
    /// Query parameter of query-parameter authentication.
    pub auth_param: Option<String>,
    /// Environment variable that holds the credential.
    pub auth_env: Option<String>,
    /// Headers sent with every request, in order.
    pub headers: Vec<(String, String)>,
    pub timeout_secs: u64,
    pub endpoints: Vec<EndpointDef>,
}

/// Settings of the REST capability.
pub struct ApiPluginConfig {
    pub services: Vec<ServiceDef>,
}

impl Default for ApiPluginConfig {
    fn default() -> (r: Self)
        ensures
            r.services@.len() == 0,
    {
        ApiPluginConfig { services: Vec::new() }
    }
}

/// One argument of a call: its name, its value, and the value as text (a string as it is,
/// anything else as JSON).
pub struct ApiArg {
    pub name: String,
    pub text: String,
    pub value: Value,
}

/// How a request authenticates.
pub enum AuthPlan {
    Anonymous,
    Header(String, String),
    Basic(String, String),
}

/// A request ready to be sent.
pub struct ApiRequestPlan {
    pub method: HttpMethod,
    pub url: String,
    pub query: Vec<(String, String)>,
    /// The service's headers, then the header parameters.
    pub headers: Vec<(String, String)>,
    /// Body members; sent as a JSON object only where `send_body` is set.
    pub body: Vec<(String, Value)>,
    pub send_body: bool,
    pub timeout_secs: u64,
}

/// The tool name of an endpoint.
pub open spec fn tool_name(service_id: Seq<char>, endpoint: Seq<char>) -> Seq<char> {
    service_id + seq!['_'] + endpoint
}

/// `s` with every occurrence of `pat`, scanning left to right, replaced by `to`.
pub open spec fn replaced(s: Seq<char>, pat: Seq<char>, to: Seq<char>) -> Seq<char>
    decreases s.len(),
{
    if pat.len() == 0 || s.len() == 0 {
        s
    } else if pat.len() <= s.len() && s.subrange(0, pat.len() as int) == pat {
        to + replaced(s.subrange(pat.len() as int, s.len() as int), pat, to)
    } else {
        seq![s[0]] + replaced(s.subrange(1, s.len() as int), pat, to)
    }
}

/// `s` without its trailing `/` characters.
pub open spec fn trim_slashes(s: Seq<char>) -> Seq<char>
    decreases s.len(),
{
    if s.len() > 0 && s.last() == '/' {
        trim_slashes(s.drop_last())
    } else {
        s
    }
}

/// Where parameter `name` goes: the location of its first declaration, `query` if undeclared.
pub open spec fn location_of(params: Seq<(String, ParamDef)>, name: Seq<char>) -> Seq<char>
    decreases params.len(),
{
    if params.len() == 0 {
        "query"@
    } else if params[0].0@ == name {
        params[0].1.location@
    } else {
        location_of(params.skip(1), name)
    }
}

/// The placeholder of parameter `name` in a path.
pub open spec fn placeholder(name: Seq<char>) -> Seq<char> {
    seq!['{'] + name + seq!['}']
}

/// The path after the path arguments among `args` are put in.
pub open spec fn planned_path(path: Seq<char>, params: Seq<(String, ParamDef)>, args: Seq<ApiArg>) -> Seq<char>
    decreases args.len(),
{
    if args.len() == 0 {
        path
    } else {
        let prev = planned_path(path, params, args.drop_last());
        let a = args.last();
        if location_of(params, a.name@) == "path"@ {
            replaced(prev, placeholder(a.name@), a.text@)
        } else {
            prev
        }
    }
}

/// The arguments that go to location `loc`, as name and text, in order.
pub open spec fn text_args_at(params: Seq<(String, ParamDef)>, args: Seq<ApiArg>, loc: Seq<char>) -> Seq<(Seq<char>, Seq<char>)>
    decreases args.len(),
{
    if args.len() == 0 {
        Seq::empty()
    } else {
        let prev = text_args_at(params, args.drop_last(), loc);
        let a = args.last();
        if location_of(params, a.name@) == loc {
            prev.push((a.name@, a.text@))
        } else {
            prev
        }
    }
}

/// Whether a location is one of those that take the argument's text.
pub open spec fn text_location(loc: Seq<char>) -> bool {
    loc == "path"@ || loc == "query"@ || loc == "header"@
}

/// The arguments that go to the body, as name and value, in order: every argument whose
/// location is neither `path`, `query` nor `header`.
pub open spec fn body_args(params: Seq<(String, ParamDef)>, args: Seq<ApiArg>) -> Seq<(Seq<char>, Value)>
    decreases args.len(),
{
    if args.len() == 0 {
        Seq::empty()
    } else {
        let prev = body_args(params, args.drop_last());
        let a = args.last();
        if text_location(location_of(params, a.name@)) {
            prev
        } else {
            prev.push((a.name@, a.value))
        }
    }
}

/// Pairs of strings as pairs of texts.
pub open spec fn text_pairs(v: Seq<(String, String)>) -> Seq<(Seq<char>, Seq<char>)> {
    v.map_values(|p: (String, String)| (p.0@, p.1@))
}

/// Replaces every occurrence of `pat` in `s` by `to`.
pub fn replace_all(s: &Vec<char>, pat: &Vec<char>, to: &Vec<char>) -> (r: Vec<char>)
    ensures
        r@ == replaced(s@, pat@, to@),
{
    if pat.len() == 0 {
        return slice_of(s, 0, s.len());
    }
    let mut out: Vec<char> = Vec::new();
    let mut i: usize = 0;
    let n = s.len();
    assert(s@.subrange(0, n as int) =~= s@);
    assert(out@ + replaced(s@, pat@, to@) =~= replaced(s@, pat@, to@));
    while i < n
        invariant
            n == s@.len(),
            i <= n,
            pat@.len() > 0,
            out@ + replaced(s@.subrange(i as int, n as int), pat@, to@) == replaced(s@, pat@, to@),
        decreases n - i,
    {
        let ghost rest = s@.subrange(i as int, n as int);
        if matches_at(s, pat, i) {
            proof {
                assert(rest.subrange(0, pat@.len() as int) =~= s@.subrange(i as int, i + pat@.len()));
                assert(rest.subrange(pat@.len() as int, rest.len() as int) =~= s@.subrange(i + pat@.len(), n as int));
            }
            let mut t = slice_of(to, 0, to.len());
            out.append(&mut t);
            i = i + pat.len();
        } else {
            proof {
                if pat@.len() <= rest.len() {
                    assert(rest.subrange(0, pat@.len() as int) =~= s@.subrange(i as int, i + pat@.len()));
                }
                assert(rest.subrange(1, rest.len() as int) =~= s@.subrange(i + 1, n as int));
            }
            out.push(s[i]);
            i = i + 1;
        }
    }
    proof {
        assert(s@.subrange(n as int, n as int) =~= Seq::<char>::empty());
        assert(out@ =~= replaced(s@, pat@, to@));
    }
    out
}

/// `s` without its trailing `/` characters.
pub fn trim_end_slashes(s: &Vec<char>) -> (r: Vec<char>)
    ensures
        r@ == trim_slashes(s@),
{
    let mut k = s.len();
    assert(s@.subrange(0, k as int) =~= s@);
    while k > 0 && s[k - 1] == '/'
        invariant
            k <= s@.len(),
            trim_slashes(s@.subrange(0, k as int)) == trim_slashes(s@),
        decreases k,
    {
        proof {
            assert(s@.subrange(0, k as int).drop_last() =~= s@.subrange(0, k - 1));
        }
        k = k - 1;
    }
    slice_of(s, 0, k)
}

fn param_location(params: &Vec<(String, ParamDef)>, name: &String) -> (r: String)
    ensures
        r@ == location_of(params@, name@),
{
    let mut i: usize = 0;
    assert(params@.skip(0) =~= params@);
    while i < params.len()
        invariant
            i <= params@.len(),
            location_of(params@.skip(i as int), name@) == location_of(params@, name@),
        decreases params@.len() - i,
    {
        proof {
            assert(params@.skip(i as int)[0] == params@[i as int]);
            assert(params@.skip(i as int).skip(1) =~= params@.skip(i + 1));
        }
        if params[i].0 == *name {
            return params[i].1.location.clone();
        }
        i = i + 1;
    }
    proof {
        assert(params@.skip(i as int).len() == 0);
    }
    String::from_str("query")
}

/// The placeholder `{name}`.
fn placeholder_chars(name: &String) -> (r: Vec<char>)
    ensures
        r@ == placeholder(name@),
{
    let mut out: Vec<char> = Vec::new();
    out.push('{');
    push_str(&mut out, name.as_str());
    out.push('}');
    assert(out@ =~= placeholder(name@));
    out
}

/// The REST capability.
pub struct ApiPlugin {
    config: ApiPluginConfig,
}

/// Total number of endpoints over services.
pub open spec fn endpoint_total(services: Seq<ServiceDef>) -> nat
    decreases services.len(),
{
    if services.len() == 0 {
        0
    } else {
        endpoint_total(services.drop_last()) + services.last().endpoints@.len()
    }
}

/// The tool names of all endpoints, service by service, in order.
pub open spec fn all_tool_names(services: Seq<ServiceDef>) -> Seq<Seq<char>>
    decreases services.len(),
{
    if services.len() == 0 {
        Seq::empty()
    } else {
        let s = services.last();
        all_tool_names(services.drop_last()) + s.endpoints@.map_values(|e: EndpointDef| tool_name(s.id@, e.name@))
    }
}

/// The description of an endpoint's tool.
pub open spec fn endpoint_description(s: ServiceDef, e: EndpointDef) -> Seq<char> {
    if e.description@.len() == 0 {
        s.name@ + ": "@ + method_name(e.method) + " "@ + e.path@
    } else {
        s.name@ + ": "@ + e.description@
    }
}

/// The text of an API error answer.
pub open spec fn api_error_text(status: u16, body: Seq<char>) -> Seq<char> {
    "API returned error "@ + decimal(status as nat) + ": "@ + body
}

impl ApiPlugin {
    /// The capability's settings.
    pub closed spec fn settings(&self) -> ApiPluginConfig {
        self.config
    }

    pub fn new(config: ApiPluginConfig) -> (r: Self)
        ensures
            r.settings() == config,
    {
        ApiPlugin { config }
    }

    /// The capability with no service.
    pub fn default_plugin() -> (r: Self)
        ensures
            r.settings().services@.len() == 0,
    {
        ApiPlugin::new(ApiPluginConfig::default())
    }

    /// The configured services.
    pub fn services(&self) -> (r: &Vec<ServiceDef>)
        ensures
            *r == self.settings().services,
    {
        &self.config.services
    }

    /// The number of configured services.
    pub fn service_count(&self) -> (r: usize)
        ensures
            r == self.settings().services@.len(),
    {
        self.config.services.len()
    }

    /// The number of configured endpoints over all services.
    pub fn endpoint_count(&self) -> (r: usize)
        requires
            endpoint_total(self.settings().services@) <= usize::MAX,
        ensures
            r == endpoint_total(self.settings().services@),
    {
        let mut total: usize = 0;
        let mut i: usize = 0;
        while i < self.config.services.len()
            invariant
                i <= self.config.services@.len(),
                total == endpoint_total(self.config.services@.take(i as int)),
                endpoint_total(self.config.services@) <= usize::MAX,
            decreases self.config.services@.len() - i,
        {
            proof {
                assert(self.config.services@.take(i + 1).drop_last() =~= self.config.services@.take(i as int));
                lemma_endpoint_total_prefix(self.config.services@, i + 1);
            }
            total = total + self.config.services[i].endpoints.len();
            i = i + 1;
        }
        proof {
            assert(self.config.services@.take(i as int) =~= self.config.services@);
        }
        total
    }

    /// The service and endpoint whose tool is named `tool`: the first, in configuration order.
    pub fn find_endpoint(&self, tool: &str) -> (r: Option<(&ServiceDef, &EndpointDef)>)
        ensures
            r is None ==> forall|i: int, j: int|
                0 <= i < self.settings().services@.len() && 0 <= j < self.settings().services@[i].endpoints@.len()
                    ==> tool_name(self.settings().services@[i].id@, (#[trigger] self.settings().services@[i].endpoints@[j]).name@) != tool@,
            r matches Some((s, e)) ==> tool_name(s.id@, e.name@) == tool@ && exists|i: int, j: int|
                0 <= i < self.settings().services@.len() && 0 <= j < self.settings().services@[i].endpoints@.len()
                    && *s == self.settings().services@[i] && *e == (#[trigger] self.settings().services@[i].endpoints@[j]),
    {
        let mut i: usize = 0;
        while i < self.config.services.len()
            invariant
                i <= self.config.services@.len(),
                forall|a: int, b: int|
                    0 <= a < i && 0 <= b < self.config.services@[a].endpoints@.len() ==> tool_name(
                        self.config.services@[a].id@,
                        (#[trigger] self.config.services@[a].endpoints@[b]).name@,
                    ) != tool@,
            decreases self.config.services@.len() - i,
        {
            let service = &self.config.services[i];
            let mut j: usize = 0;
            while j < service.endpoints.len()
                invariant
                    i < self.config.services@.len(),
                    *service == self.config.services@[i as int],
                    j <= service.endpoints@.len(),
                    forall|a: int, b: int|
                        0 <= a < i && 0 <= b < self.config.services@[a].endpoints@.len() ==> tool_name(
                            self.config.services@[a].id@,
                            (#[trigger] self.config.services@[a].endpoints@[b]).name@,
                        ) != tool@,
                    forall|b: int| 0 <= b < j ==> tool_name(service.id@, (#[trigger] service.endpoints@[b]).name@) != tool@,
                decreases service.endpoints@.len() - j,
            {
                let endpoint = &service.endpoints[j];
                let mut full = chars_of(service.id.as_str());
                full.push('_');
                push_str(&mut full, endpoint.name.as_str());
                let wanted = chars_of(tool);
                if seq_eq(&full, &wanted) {
                    assert(full@ =~= tool_name(service.id@, endpoint.name@));
                    return Some((service, endpoint));
                }
                assert(full@ =~= tool_name(service.id@, endpoint.name@));
                j = j + 1;
            }
            i = i + 1;
        }
        None
    }

    /// The tool of an endpoint: named `{service id}_{endpoint name}`, described by the
    /// endpoint's description (or its method and path), with a JSON schema of its parameters.
    pub fn endpoint_to_tool(&self, service: &ServiceDef, endpoint: &EndpointDef) -> (r: ToolDefinition)
        ensures
            r.name@ == tool_name(service.id@, endpoint.name@),
            r.description@ == endpoint_description(*service, *endpoint),
            r.requires_confirmation == endpoint.requires_confirmation,
            r.plugin_id matches Some(p) && p@ == API_ID@,
    {
        let mut name = chars_of(service.id.as_str());
        name.push('_');
        push_str(&mut name, endpoint.name.as_str());
        let mut desc = chars_of(service.name.as_str());
        push_str(&mut desc, ": ");
        if endpoint.description.as_str().is_empty() {
            push_str(&mut desc, endpoint.method.as_str());
            push_str(&mut desc, " ");
            push_str(&mut desc, endpoint.path.as_str());
        } else {
            push_str(&mut desc, endpoint.description.as_str());
        }
        let mut properties = serde_json::Map::new();
        let mut required: Vec<Value> = Vec::new();
        let mut k: usize = 0;
        while k < endpoint.params.len()
            invariant
                k <= endpoint.params@.len(),
            decreases endpoint.params@.len() - k,
        {
            let (pname, param) = &endpoint.params[k];
            let mut prop = serde_json::Map::new();
            prop.insert(String::from_str("type"), Value::from(param.param_type.clone()));
            if !param.description.as_str().is_empty() {
                prop.insert(String::from_str("description"), Value::from(param.description.clone()));
            }
            if let Some(d) = &param.default {
                prop.insert(String::from_str("default"), d.clone());
            }
            properties.insert(pname.clone(), Value::from(prop));
            if param.required {
                required.push(Value::from(pname.clone()));
            }
            k = k + 1;
        }
        let n = string_of(name.as_slice());
        let d = string_of(desc.as_slice());
        let tool = ToolDefinition::new(n.as_str(), d.as_str()).with_parameters(
            object_schema(properties, required),
        ).from_plugin(API_ID);
        if endpoint.requires_confirmation {
            tool.with_confirmation()
        } else {
            tool
        }
    }

    /// The tools of all endpoints, service by service, in configuration order.
    pub fn tools(&self) -> (r: Vec<ToolDefinition>)
        ensures
            r@.map_values(|t: ToolDefinition| t.name@) == all_tool_names(self.settings().services@),
    {
        let mut tools: Vec<ToolDefinition> = Vec::new();
        let mut i: usize = 0;
        while i < self.config.services.len()
            invariant
                i <= self.config.services@.len(),
                tools@.map_values(|t: ToolDefinition| t.name@) == all_tool_names(self.config.services@.take(i as int)),
            decreases self.config.services@.len() - i,
        {
            let service = &self.config.services[i];
            let ghost before = tools@.map_values(|t: ToolDefinition| t.name@);
            let mut j: usize = 0;
            while j < service.endpoints.len()
                invariant
                    i < self.config.services@.len(),
                    *service == self.config.services@[i as int],
                    j <= service.endpoints@.len(),
                    tools@.map_values(|t: ToolDefinition| t.name@) == before + service.endpoints@.take(j as int).map_values(
                        |e: EndpointDef| tool_name(service.id@, e.name@),
                    ),
                decreases service.endpoints@.len() - j,
            {
                let t = self.endpoint_to_tool(service, &service.endpoints[j]);
                let ghost prev = tools@;
                tools.push(t);
                proof {
                    assert(tools@.map_values(|t: ToolDefinition| t.name@) =~= prev.map_values(|t: ToolDefinition| t.name@).push(
                        tool_name(service.id@, service.endpoints@[j as int].name@),
                    ));
                    assert(service.endpoints@.take(j + 1).map_values(|e: EndpointDef| tool_name(service.id@, e.name@))
                        =~= service.endpoints@.take(j as int).map_values(|e: EndpointDef| tool_name(service.id@, e.name@)).push(
                        tool_name(service.id@, service.endpoints@[j as int].name@),
                    ));
                    assert(tools@.map_values(|t: ToolDefinition| t.name@) =~= before + service.endpoints@.take(j + 1).map_values(
                        |e: EndpointDef| tool_name(service.id@, e.name@),
                    ));
                }
                j = j + 1;
            }
            proof {
                assert(service.endpoints@.take(j as int) =~= service.endpoints@);
                assert(self.config.services@.take(i + 1).drop_last() =~= self.config.services@.take(i as int));
                assert(self.config.services@.take(i + 1).last() == *service);
            }
            i = i + 1;
        }
        proof {
            assert(self.config.services@.take(i as int) =~= self.config.services@);
        }
        tools
    }

    /// The capability's manifest.
    pub fn manifest(&self) -> (r: PluginManifest)
        ensures
            r.id@ == API_ID@,
            r.name@ == "Custom API"@,
            r.description@ == "Connect any REST API through configuration - no code required"@,
            r.keywords@.len() == 5,
            crate::manifest::manifest_valid(r),
            r.version == (Version { major: 1, minor: 0, patch: 0 }),
            r.category == PluginCategory::Cloud,
            r.config_schema@.len() == 1,
            r.dependencies@.len() == 0,
    {
        proof {
            reveal_strlit("moxie.api");
            reveal_strlit("Custom API");
            reveal_strlit("Connect any REST API through configuration - no code required");
        }
        PluginManifest::new(
            API_ID,
            "Custom API",
            "Connect any REST API through configuration - no code required",
        ).with_version(1, 0, 0).with_author("Moxie AI").with_category(PluginCategory::Cloud).with_keywords(
            vec!["api", "rest", "http", "integration", "custom"],
        ).with_config_field(
            ConfigFieldBuilder::new("services", ConfigFieldType::StringArray).label(
                "API Services",
            ).description("Configured API services").build(),
        )
    }

    /// Resolves a tool call to its service and endpoint, or fails with `ToolNotFound`.
    pub fn route(&self, tool: &str) -> (r: Result<(&ServiceDef, &EndpointDef), PluginError>)
        ensures
            r matches Ok((s, e)) ==> tool_name(s.id@, e.name@) == tool@,
            r matches Err(err) ==> (err matches PluginError::ToolNotFound(t) && t@ == tool@)
                && forall|i: int, j: int|
                0 <= i < self.settings().services@.len() && 0 <= j < self.settings().services@[i].endpoints@.len()
                    ==> tool_name(self.settings().services@[i].id@, (#[trigger] self.settings().services@[i].endpoints@[j]).name@) != tool@,
    {
        match self.find_endpoint(tool) {
            Some(found) => Ok(found),
            None => Err(PluginError::ToolNotFound(String::from_str(tool))),
        }
    }

    /// Plans the request of a call: path arguments fill their `{name}` placeholders, query and
    /// header arguments become query parameters and headers (after the service's own), and
    /// every other argument a body member; a body is sent only with POST, PUT or PATCH.
    pub fn plan_call(&self, service: &ServiceDef, endpoint: &EndpointDef, args: &Vec<ApiArg>) -> (r: ApiRequestPlan)
        ensures
            r.method == endpoint.method,
            r.url@ == trim_slashes(service.base_url@) + planned_path(endpoint.path@, endpoint.params@, args@),
            text_pairs(r.query@) == text_args_at(endpoint.params@, args@, "query"@),
            text_pairs(r.headers@) == text_pairs(service.headers@) + text_args_at(endpoint.params@, args@, "header"@),
            r.body@.map_values(|p: (String, Value)| (p.0@, p.1)) == body_args(endpoint.params@, args@),
            r.send_body == (has_body(endpoint.method) && r.body@.len() > 0),
            r.timeout_secs == service.timeout_secs,
    {
        let mut path = chars_of(endpoint.path.as_str());
        let mut query: Vec<(String, String)> = Vec::new();
        let mut extra: Vec<(String, String)> = Vec::new();
        let mut body: Vec<(String, Value)> = Vec::new();
        let mut i: usize = 0;
        while i < args.len()
            invariant
                i <= args@.len(),
                path@ == planned_path(endpoint.path@, endpoint.params@, args@.take(i as int)),
                text_pairs(query@) == text_args_at(endpoint.params@, args@.take(i as int), "query"@),
                text_pairs(extra@) == text_args_at(endpoint.params@, args@.take(i as int), "header"@),
                body@.map_values(|p: (String, Value)| (p.0@, p.1)) == body_args(endpoint.params@, args@.take(i as int)),
            decreases args@.len() - i,
        {
            let ghost pre = args@.take(i as int);
            let ghost cur = args@.take(i + 1);
            proof {
                assert(cur.drop_last() =~= pre);
                assert(cur.last() == args@[i as int]);
                reveal_strlit("path");
                reveal_strlit("query");
                reveal_strlit("header");
                assert("path"@.len() == 4);
                assert("query"@.len() == 5);
                assert("header"@.len() == 6);
            }
            let arg = &args[i];
            let loc = param_location(&endpoint.params, &arg.name);
            let ghost q0 = query@;
            let ghost h0 = extra@;
            let ghost b0 = body@;
            if str_eq(loc.as_str(), "path") {
                let ph = placeholder_chars(&arg.name);
                let tx = chars_of(arg.text.as_str());
                path = replace_all(&path, &ph, &tx);
                assert(text_pairs(query@) =~= text_args_at(endpoint.params@, cur, "query"@));
                assert(text_pairs(extra@) =~= text_args_at(endpoint.params@, cur, "header"@));
            } else if str_eq(loc.as_str(), "query") {
                query.push((arg.name.clone(), arg.text.clone()));
                assert(text_pairs(query@) =~= text_pairs(q0).push((arg.name@, arg.text@)));
                assert(text_pairs(extra@) =~= text_args_at(endpoint.params@, cur, "header"@));
            } else if str_eq(loc.as_str(), "header") {
                extra.push((arg.name.clone(), arg.text.clone()));
                assert(text_pairs(extra@) =~= text_pairs(h0).push((arg.name@, arg.text@)));
                assert(text_pairs(query@) =~= text_args_at(endpoint.params@, cur, "query"@));
            } else {
                body.push((arg.name.clone(), arg.value.clone()));
                assert(body@.map_values(|p: (String, Value)| (p.0@, p.1)) =~= b0.map_values(
                    |p: (String, Value)| (p.0@, p.1),
                ).push((arg.name@, arg.value)));
                assert(text_pairs(query@) =~= text_args_at(endpoint.params@, cur, "query"@));
                assert(text_pairs(extra@) =~= text_args_at(endpoint.params@, cur, "header"@));
            }
            i = i + 1;
        }
        proof {
            assert(args@.take(i as int) =~= args@);
        }
        let base = chars_of(service.base_url.as_str());
        let mut url = trim_end_slashes(&base);
        let ghost trimmed = url@;
        url.append(&mut path);
        let mut headers: Vec<(String, String)> = Vec::new();
        let mut k: usize = 0;
        while k < service.headers.len()
            invariant
                k <= service.headers@.len(),
                text_pairs(headers@) == text_pairs(service.headers@.take(k as int)),
            decreases service.headers@.len() - k,
        {
            let (hn, hv) = &service.headers[k];
            let ghost prev = headers@;
            headers.push((hn.clone(), hv.clone()));
            assert(service.headers@.take(k + 1) =~= service.headers@.take(k as int).push(service.headers@[k as int]));
            assert(text_pairs(headers@) =~= text_pairs(prev).push((hn@, hv@)));
            assert(text_pairs(headers@) =~= text_pairs(service.headers@.take(k + 1)));
            k = k + 1;
        }
        let ghost own = text_pairs(headers@);
        let mut m: usize = 0;
        while m < extra.len()
            invariant
                m <= extra@.len(),
                text_pairs(headers@) == own + text_pairs(extra@.take(m as int)),
            decreases extra@.len() - m,
        {
            let (hn, hv) = &extra[m];
            let ghost prev = headers@;
            headers.push((hn.clone(), hv.clone()));
            assert(extra@.take(m + 1) =~= extra@.take(m as int).push(extra@[m as int]));
            assert(text_pairs(headers@) =~= text_pairs(prev).push((hn@, hv@)));
            assert(text_pairs(extra@.take(m + 1)) =~= text_pairs(extra@.take(m as int)).push((hn@, hv@)));
            assert(text_pairs(headers@) =~= own + text_pairs(extra@.take(m + 1)));
            m = m + 1;
        }
        proof {
            assert(service.headers@.take(k as int) =~= service.headers@);
            assert(extra@.take(m as int) =~= extra@);
        }
        let send_body = (endpoint.method == HttpMethod::POST || endpoint.method == HttpMethod::PUT
            || endpoint.method == HttpMethod::PATCH) && body.len() > 0;
        ApiRequestPlan {
            method: endpoint.method,
            url: string_of(url.as_slice()),
            query,
            headers,
            body,
            send_body,
            timeout_secs: service.timeout_secs,
        }
    }

    /// How a request to `service` authenticates, given the credential read from the service's
    /// environment variable: an API key goes in the service's header, a bearer token in
    /// `Authorization`, a `username:password` credential as basic authentication. Query
    /// parameter authentication adds nothing here.
    pub fn auth_plan(&self, service: &ServiceDef, credential: &Option<String>) -> (r: AuthPlan)
        ensures
            credential is None ==> r is Anonymous,
            service.auth_type == AuthType::NoAuth || service.auth_type == AuthType::QueryParam ==> r is Anonymous,
            service.auth_type == AuthType::ApiKey ==> match (service.auth_header, *credential) {
                (Some(h), Some(k)) => (r matches AuthPlan::Header(n, v) && n@ == h@ && v@ == k@),
                _ => r is Anonymous,
            },
            service.auth_type == AuthType::Bearer ==> match *credential {
                Some(k) => (r matches AuthPlan::Header(n, v) && n@ == "Authorization"@ && v@ == "Bearer "@ + k@),
                None => r is Anonymous,
            },
            service.auth_type == AuthType::Basic ==> match *credential {
                Some(k) => if find_from(k@, seq![':'], 0) >= 0 {
                    r matches AuthPlan::Basic(u, p) && u@ == k@.subrange(0, find_from(k@, seq![':'], 0))
                        && p@ == k@.subrange(find_from(k@, seq![':'], 0) + 1, k@.len() as int)
                } else {
                    r is Anonymous
                },
                None => r is Anonymous,
            },
    {
        let cred = match credential {
            Some(c) => c,
            None => return AuthPlan::Anonymous,
        };
        match service.auth_type {
            AuthType::NoAuth => AuthPlan::Anonymous,
            AuthType::QueryParam => AuthPlan::Anonymous,
            AuthType::ApiKey => match &service.auth_header {
                Some(h) => AuthPlan::Header(h.clone(), cred.clone()),
                None => AuthPlan::Anonymous,
            },
            AuthType::Bearer => {
                let mut v = chars_of("Bearer ");
                push_str(&mut v, cred.as_str());
                AuthPlan::Header(String::from_str("Authorization"), string_of(v.as_slice()))
            },
            AuthType::Basic => {
                let cs = chars_of(cred.as_str());
                let total = cs.len();
                let mut colon: Vec<char> = Vec::new();
                colon.push(':');
                assert(colon@ =~= seq![':']);
                proof {
                    crate::text::lemma_find_from(cs@, colon@, 0);
                }
                match crate::text::find(&cs, &colon, 0) {
                    Some(at) => {
                        assert(occurs_at(cs@, colon@, at as int));
                        let user = slice_of(&cs, 0, at);
                        let pass = slice_of(&cs, at + 1, cs.len());
                        AuthPlan::Basic(string_of(user.as_slice()), string_of(pass.as_slice()))
                    },
                    None => AuthPlan::Anonymous,
                }
            },
        }
    }

    /// The tool result of an answer: on a success status (200 to 299), the status and the
    /// body, with the call's duration; otherwise a failure that quotes the status and the body's
    /// text.
    pub fn response_result(&self, status: u16, body: Value, body_text: &str, duration_ms: u64) -> (r: ToolResult)
        ensures
            r.success == (200 <= status <= 299),
            r.success ==> r.error is None && (r.metadata matches Some(m) && m.duration_ms == Some(duration_ms)),
            !r.success ==> (r.error matches Some(e) && e@ == api_error_text(status, body_text@)),
    {
        let is_success = 200 <= status && status <= 299;
        if is_success {
            let mut m = serde_json::Map::new();
            m.insert(String::from_str("status"), Value::from(status as u64));
            m.insert(String::from_str("data"), body);
            ToolResult::success(Value::from(m)).with_duration(duration_ms)
        } else {
            let mut out = chars_of("API returned error ");
            push_decimal(&mut out, status as u32);
            push_str(&mut out, ": ");
            push_str(&mut out, body_text);
            let text = string_of(out.as_slice());
            ToolResult::failure(text.as_str())
        }
    }
}

proof fn lemma_endpoint_total_prefix(services: Seq<ServiceDef>, k: int)
    requires
        0 <= k <= services.len(),
    ensures
        endpoint_total(services.take(k)) <= endpoint_total(services),
    decreases services.len(),
{
    if k < services.len() {
        assert(services.drop_last().take(k) =~= services.take(k));
        lemma_endpoint_total_prefix(services.drop_last(), k);
    } else {
        assert(services.take(k) =~= services);
    }
}

} // verus!
