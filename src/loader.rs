//! The capability registry: registration with validation and dependency gating, the lifecycle
//! state machine, the tool catalog and tool resolution.
//!
//! The registry holds what it knows of each capability as plain values; the capability objects
//! themselves, and the lifecycle hooks that run between two state changes, live with the host.
use vstd::prelude::*;
use serde_json::Value;
use crate::manifest::{PluginManifest, Version, compatible, manifest_problem, manifest_valid, version_text};
use crate::text::{chars_of, push_str, string_of};
use crate::tool::{PluginError, ToolDefinition};

verus! {

/// Lifecycle state of a registered capability.
#[derive(Clone, Copy, Debug, PartialEq, Eq, Structural)]
pub enum PluginState {
    /// Registered, not initialized.
    Registered,
    /// Its initialization hook is running.
    Initializing,
    /// Ready: its tools are offered.
    Active,
    /// Disabled: its tools are not offered.
    Disabled,
    /// Its initialization failed.
    Error,
    /// Its shutdown hook is running.
    ShuttingDown,
}

/// What is handed to a capability's initialization hook.
pub struct PluginContext {
    /// Configuration of the capability; `None` stands for an empty JSON object.
    pub config: Option<Value>,
    /// Directory where the capability may keep its data.
    pub data_dir: String,
    pub debug: bool,
}

impl Default for PluginContext {
    fn default() -> (r: Self)
        ensures
            r.config is None,
            r.data_dir@ == "./data/plugins"@,
            !r.debug,
    {
        PluginContext { config: None, data_dir: String::from_str("./data/plugins"), debug: false }
    }
}

/// What the registry holds of one capability.
pub struct LoadedPlugin {
    pub manifest: PluginManifest,
    /// The tools the capability offers.
    pub tools: Vec<ToolDefinition>,
    pub state: PluginState,
    /// Configuration of the capability; `None` stands for an empty JSON object.
    pub config: Option<Value>,
    /// Position in registration order, starting at 1, never reused.
    pub load_order: usize,
}

/// Where a tool call is to be sent.
pub struct ToolRoute {
    /// The capability that offers the tool.
    pub plugin_id: String,
    /// Whether the capability's manifest asks for confirmation (advisory only).
    pub requires_confirmation: bool,
}

/// Registry of capabilities, kept in registration order.
pub struct PluginLoader {
    plugins: Vec<LoadedPlugin>,
    load_counter: usize,
    plugins_dir: Option<String>,
    context: PluginContext,
}

/// Whether some entry has identifier `id`.
pub open spec fn has_id(entries: Seq<LoadedPlugin>, id: Seq<char>) -> bool {
    exists|i: int| 0 <= i < entries.len() && (#[trigger] entries[i]).manifest.id@ == id
}

/// The position of the entry with identifier `id`, or -1.
pub open spec fn index_of(entries: Seq<LoadedPlugin>, id: Seq<char>) -> int
    decreases entries.len(),
{
    if entries.len() == 0 {
        -1
    } else if entries.last().manifest.id@ == id {
        entries.len() - 1
    } else {
        index_of(entries.drop_last(), id)
    }
}

/// Whether the dependency `dep` is met: registered with a compatible version.
pub open spec fn dependency_met(entries: Seq<LoadedPlugin>, dep: (String, Version)) -> bool {
    has_id(entries, dep.0@) && compatible(entries[index_of(entries, dep.0@)].manifest.version, dep.1)
}

/// The position of the first unmet dependency in `deps`, or -1.
pub open spec fn first_unmet(entries: Seq<LoadedPlugin>, deps: Seq<(String, Version)>) -> int {
    if exists|k: int| 0 <= k < deps.len() && !dependency_met(entries, #[trigger] deps[k]) {
        choose|k: int|
            0 <= k < deps.len() && !dependency_met(entries, #[trigger] deps[k]) && forall|j: int|
                0 <= j < k ==> dependency_met(entries, #[trigger] deps[j])
    } else {
        -1
    }
}

/// Whether a manifest can be registered next to `entries`.
pub open spec fn registrable(entries: Seq<LoadedPlugin>, m: PluginManifest) -> bool {
    &&& manifest_valid(m)
    &&& !has_id(entries, m.id@)
    &&& forall|k: int| 0 <= k < m.dependencies@.len() ==> dependency_met(entries, #[trigger] m.dependencies@[k])
}

/// The refusal of a second registration under identifier `id`.
pub open spec fn duplicate_text(id: Seq<char>) -> Seq<char> {
    "Plugin '"@ + id + "' is already registered"@
}

/// The refusal of a registration whose dependency `dep` is not met.
pub open spec fn dependency_text(entries: Seq<LoadedPlugin>, id: Seq<char>, dep: (String, Version)) -> Seq<char> {
    if has_id(entries, dep.0@) {
        "Plugin '"@ + id + "' requires "@ + dep.0@ + " version "@ + version_text(dep.1) + ", but "@
            + version_text(entries[index_of(entries, dep.0@)].manifest.version) + " is loaded"@
    } else {
        "Plugin '"@ + id + "' requires '"@ + dep.0@ + "' which is not loaded"@
    }
}

/// What a capability adds to the tool catalog: its tools while it is active, nothing otherwise.
pub open spec fn contribution(p: LoadedPlugin) -> Seq<ToolDefinition> {
    if p.state == PluginState::Active {
        p.tools@
    } else {
        Seq::empty()
    }
}

/// The tool catalog: the tools of every active capability, in registration order.
pub open spec fn active_tools(entries: Seq<LoadedPlugin>) -> Seq<ToolDefinition>
    decreases entries.len(),
{
    if entries.len() == 0 {
        Seq::empty()
    } else {
        active_tools(entries.drop_last()) + contribution(entries.last())
    }
}

/// Whether a capability offers a tool named `tool`: it is active and declares such a tool.
pub open spec fn offers(p: LoadedPlugin, tool: Seq<char>) -> bool {
    p.state == PluginState::Active && exists|j: int| 0 <= j < p.tools@.len() && (#[trigger] p.tools@[j]).name@ == tool
}

/// The first capability, in registration order, that offers `tool`; -1 when none does.
pub open spec fn owner_of(entries: Seq<LoadedPlugin>, tool: Seq<char>) -> int {
    if exists|i: int| 0 <= i < entries.len() && offers(#[trigger] entries[i], tool) {
        choose|i: int|
            0 <= i < entries.len() && offers(#[trigger] entries[i], tool) && forall|j: int|
                0 <= j < i ==> !offers(#[trigger] entries[j], tool)
    } else {
        -1
    }
}

/// The data directory of capability `id` under `base`.
pub open spec fn join_path(base: Seq<char>, id: Seq<char>) -> Seq<char> {
    if base.len() == 0 {
        id
    } else if base.last() == '/' {
        base + id
    } else {
        base + seq!['/'] + id
    }
}

/// The entries with one state changed.
pub open spec fn with_state(entries: Seq<LoadedPlugin>, i: int, s: PluginState) -> Seq<LoadedPlugin> {
    entries.update(i, LoadedPlugin { state: s, ..entries[i] })
}

proof fn lemma_index_of(entries: Seq<LoadedPlugin>, id: Seq<char>)
    ensures
        has_id(entries, id) <==> index_of(entries, id) >= 0,
        has_id(entries, id) ==> 0 <= index_of(entries, id) < entries.len()
            && entries[index_of(entries, id)].manifest.id@ == id,
    decreases entries.len(),
{
    if entries.len() > 0 {
        lemma_index_of(entries.drop_last(), id);
        if entries.last().manifest.id@ != id {
            if has_id(entries, id) {
                let i = choose|i: int| 0 <= i < entries.len() && (#[trigger] entries[i]).manifest.id@ == id;
                assert(entries.drop_last()[i].manifest.id@ == id);
            }
            if has_id(entries.drop_last(), id) {
                let i = choose|i: int| 0 <= i < entries.len() - 1 && (#[trigger] entries.drop_last()[i]).manifest.id@ == id;
                assert(entries[i].manifest.id@ == id);
            }
        } else {
            assert(entries[entries.len() - 1].manifest.id@ == id);
        }
    }
}

proof fn lemma_active_tools_push(entries: Seq<LoadedPlugin>, e: LoadedPlugin)
    ensures
        active_tools(entries.push(e)) == active_tools(entries) + contribution(e),
{
    assert(entries.push(e).drop_last() =~= entries);
}

/// The tool catalog splits at any capability into what comes before it, what it contributes,
/// and what comes after it: a capability adds exactly its declared tools to the catalog while it
/// is active, and nothing while it is registered, initializing, disabled, failed or shutting down.
pub proof fn lemma_catalog_split(entries: Seq<LoadedPlugin>, i: int)
    requires
        0 <= i < entries.len(),
    ensures
        active_tools(entries) == active_tools(entries.take(i)) + contribution(entries[i])
            + active_tools(entries.skip(i + 1)),
    decreases entries.len(),
{
    if i == entries.len() - 1 {
        assert(entries.drop_last() =~= entries.take(i));
        assert(entries.skip(i + 1) =~= Seq::<LoadedPlugin>::empty());
        assert(active_tools(entries.skip(i + 1)) == Seq::<ToolDefinition>::empty());
        assert(active_tools(entries) =~= active_tools(entries.take(i)) + contribution(entries[i])
            + active_tools(entries.skip(i + 1)));
    } else {
        let d = entries.drop_last();
        lemma_catalog_split(d, i);
        assert(d.take(i) =~= entries.take(i));
        assert(d[i] == entries[i]);
        let rest = entries.skip(i + 1);
        assert(rest.drop_last() =~= d.skip(i + 1));
        assert(rest.last() == entries.last());
        assert(active_tools(rest) == active_tools(d.skip(i + 1)) + contribution(entries.last()));
        assert(active_tools(entries) =~= active_tools(entries.take(i)) + contribution(entries[i])
            + active_tools(entries.skip(i + 1)));
    }
}

/// A freshly registered capability adds nothing to the tool catalog: it is `Registered`, and only
/// `Active` capabilities offer tools.
pub proof fn lemma_registration_adds_no_tools(entries: Seq<LoadedPlugin>, fresh: LoadedPlugin)
    requires
        fresh.state == PluginState::Registered,
    ensures
        active_tools(entries.push(fresh)) == active_tools(entries),
{
    lemma_active_tools_push(entries, fresh);
    assert(active_tools(entries) + Seq::<ToolDefinition>::empty() =~= active_tools(entries));
}

/// A capability that becomes `Active` with its tools adds exactly those tools to the catalog at
/// its place; one that leaves `Active` takes them away again.
pub proof fn lemma_state_change_visibility(entries: Seq<LoadedPlugin>, i: int, e: LoadedPlugin)
    requires
        0 <= i < entries.len(),
    ensures
        active_tools(entries.update(i, e)) == active_tools(entries.take(i)) + contribution(e)
            + active_tools(entries.skip(i + 1)),
        e.state == PluginState::Active ==> contribution(e) == e.tools@,
        e.state != PluginState::Active ==> contribution(e) == Seq::<ToolDefinition>::empty(),
{
    let u = entries.update(i, e);
    lemma_catalog_split(u, i);
    assert(u.take(i) =~= entries.take(i));
    assert(u.skip(i + 1) =~= entries.skip(i + 1));
}

/// A tool that no capability offers has no owner, however many capabilities are active, so
/// resolving it fails with `ToolNotFound`.
pub proof fn lemma_unoffered_tool_has_no_owner(entries: Seq<LoadedPlugin>, tool: Seq<char>)
    requires
        forall|i: int| 0 <= i < entries.len() ==> !crate::tool::declares((#[trigger] entries[i]).tools@, tool),
    ensures
        owner_of(entries, tool) == -1,
{
    assert forall|i: int| 0 <= i < entries.len() implies !offers(#[trigger] entries[i], tool) by {}
}

/// A second registration under an identifier that is already registered is refused, whatever
/// the rest of its manifest says.
pub proof fn lemma_duplicate_refused(entries: Seq<LoadedPlugin>, first: LoadedPlugin, second: PluginManifest)
    requires
        first.manifest.id@ == second.id@,
    ensures
        !registrable(entries.push(first), second),
{
    let s = entries.push(first);
    assert(s[s.len() - 1].manifest.id@ == second.id@);
    assert(has_id(s, second.id@));
}

/// A registration that names a dependency which was never registered is refused.
pub proof fn lemma_missing_dependency_refused(entries: Seq<LoadedPlugin>, m: PluginManifest, k: int)
    requires
        0 <= k < m.dependencies@.len(),
        !has_id(entries, m.dependencies@[k].0@),
    ensures
        !registrable(entries, m),
{
    assert(!dependency_met(entries, m.dependencies@[k]));
}

impl PluginLoader {
    /// The capabilities, in registration order.
    pub closed spec fn entries(&self) -> Seq<LoadedPlugin> {
        self.plugins@
    }

    /// The last load order handed out.
    pub closed spec fn counter(&self) -> nat {
        self.load_counter as nat
    }

    /// What a well-formed registry guarantees: the last load order handed out is the number of
    /// registrations; every registered manifest is valid; identifiers are unique; load orders
    /// strictly increase in registration order and lie between 1 and the last one handed out, so
    /// the next registration's load order is above all of them and none is ever reused.
    pub proof fn lemma_wf_facts(&self)
        requires
            self.wf(),
        ensures
            self.counter() == self.entries().len(),
            forall|i: int| 0 <= i < self.entries().len() ==> manifest_valid(#[trigger] self.entries()[i].manifest),
            forall|i: int, j: int|
                0 <= i < j < self.entries().len() ==> (#[trigger] self.entries()[i]).manifest.id@
                    != (#[trigger] self.entries()[j]).manifest.id@,
            forall|i: int, j: int|
                0 <= i < j < self.entries().len() ==> (#[trigger] self.entries()[i]).load_order
                    < (#[trigger] self.entries()[j]).load_order,
            forall|i: int|
                0 <= i < self.entries().len() ==> 1 <= (#[trigger] self.entries()[i]).load_order
                    <= self.counter(),
    {
    }

    /// A manifest that fails validation is never registered: no capability in a well-formed
    /// registry has an empty identifier or one with a character outside `[A-Za-z0-9._-]`.
    pub proof fn lemma_invalid_id_absent(&self, id: Seq<char>)
        requires
            self.wf(),
            id.len() == 0 || !(forall|k: int| 0 <= k < id.len() ==> crate::manifest::id_char(#[trigger] id[k])),
        ensures
            !has_id(self.entries(), id),
    {
        if has_id(self.entries(), id) {
            let i = choose|i: int| 0 <= i < self.entries().len() && (#[trigger] self.entries()[i]).manifest.id@ == id;
            assert(manifest_valid(self.plugins@[i].manifest));
        }
    }

    /// The directory where external plugins are looked for.
    pub closed spec fn plugins_dir_view(&self) -> Option<String> {
        self.plugins_dir
    }

    /// Identifiers are unique; load orders strictly increase along the registration order and
    /// never exceed the last one handed out, which is the number of registrations.
    pub closed spec fn wf(&self) -> bool {
        &&& self.load_counter == self.plugins@.len()
        &&& forall|i: int| 0 <= i < self.plugins@.len() ==> manifest_valid(#[trigger] self.plugins@[i].manifest)
        &&& forall|i: int, j: int|
            0 <= i < j < self.plugins@.len() ==> (#[trigger] self.plugins@[i]).manifest.id@
                != (#[trigger] self.plugins@[j]).manifest.id@
        &&& forall|i: int, j: int|
            0 <= i < j < self.plugins@.len() ==> (#[trigger] self.plugins@[i]).load_order
                < (#[trigger] self.plugins@[j]).load_order
        &&& forall|i: int|
            0 <= i < self.plugins@.len() ==> 1 <= (#[trigger] self.plugins@[i]).load_order
                <= self.load_counter
    }

    pub fn new() -> (r: Self)
        ensures
            r.wf(),
            r.entries().len() == 0,
            r.counter() == 0,
            r.plugins_dir_view() is None,
    {
        PluginLoader {
            plugins: Vec::new(),
            load_counter: 0,
            plugins_dir: None,
            context: PluginContext::default(),
        }
    }

    /// Sets the directory where external plugins are looked for.
    pub fn with_plugins_dir(self, dir: &str) -> (r: Self)
        ensures
            r.entries() == self.entries(),
            r.counter() == self.counter(),
            r.wf() == self.wf(),
            r.plugins_dir_view() matches Some(d) && d@ == dir@,
    {
        PluginLoader { plugins_dir: Some(String::from_str(dir)), ..self }
    }

    /// Sets the context that initialization hooks are given.
    pub fn with_context(self, context: PluginContext) -> (r: Self)
        ensures
            r.entries() == self.entries(),
            r.counter() == self.counter(),
            r.wf() == self.wf(),
            r.plugins_dir_view() == self.plugins_dir_view(),
    {
        PluginLoader { context, ..self }
    }

    /// The position of the capability with identifier `id`.
    fn position(&self, id: &str) -> (r: Option<usize>)
        ensures
            r matches Some(i) ==> i < self.entries().len() && i as int == index_of(self.entries(), id@),
            r is None <==> !has_id(self.entries(), id@),
    {
        let target = String::from_str(id);
        let mut i: usize = self.plugins.len();
        proof {
            assert(self.plugins@.take(i as int) =~= self.plugins@);
        }
        while i > 0
            invariant
                i <= self.plugins@.len(),
                index_of(self.plugins@, id@) == index_of(self.plugins@.take(i as int), id@),
                target@ == id@,
            decreases i,
        {
            let ghost t = self.plugins@.take(i as int);
            if self.plugins[i - 1].manifest.id == target {
                proof {
                    lemma_index_of(self.plugins@, id@);
                    assert(t.last() == self.plugins@[i - 1]);
                }
                return Some(i - 1);
            }
            proof {
                assert(t.drop_last() =~= self.plugins@.take(i - 1));
            }
            i = i - 1;
        }
        proof {
            lemma_index_of(self.plugins@, id@);
            assert(self.plugins@.take(0) =~= Seq::<LoadedPlugin>::empty());
        }
        None
    }

    fn dependency_error(&self, id: &String, dep: &(String, Version)) -> (r: Option<PluginError>)
        ensures
            r is None <==> dependency_met(self.entries(), *dep),
            r matches Some(e) ==> (e matches PluginError::ExecutionFailed(m)
                && m@ == dependency_text(self.entries(), id@, *dep)),
    {
        proof {
            lemma_index_of(self.plugins@, dep.0@);
        }
        match self.position(dep.0.as_str()) {
            Some(i) => {
                let have = self.plugins[i].manifest.version;
                if have.is_compatible_with(&dep.1) {
                    None
                } else {
                    let mut out = chars_of("Plugin '");
                    push_str(&mut out, id.as_str());
                    push_str(&mut out, "' requires ");
                    push_str(&mut out, dep.0.as_str());
                    push_str(&mut out, " version ");
                    let req = dep.1.to_text();
                    push_str(&mut out, req.as_str());
                    push_str(&mut out, ", but ");
                    let got = have.to_text();
                    push_str(&mut out, got.as_str());
                    push_str(&mut out, " is loaded");
                    Some(PluginError::ExecutionFailed(string_of(out.as_slice())))
                }
            },
            None => {
                let mut out = chars_of("Plugin '");
                push_str(&mut out, id.as_str());
                push_str(&mut out, "' requires '");
                push_str(&mut out, dep.0.as_str());
                push_str(&mut out, "' which is not loaded");
                Some(PluginError::ExecutionFailed(string_of(out.as_slice())))
            },
        }
    }

    /// Registers a capability with its manifest and the tools it offers.
    ///
    /// The manifest is validated, a second registration under the same identifier is refused,
    /// and every declared dependency must already be registered with a compatible version.
    /// Nothing changes on a refusal. On success the capability is `Registered`, with the next
    /// load order.
    pub fn register(&mut self, manifest: PluginManifest, tools: Vec<ToolDefinition>) -> (r: Result<(), PluginError>)
        requires
            old(self).wf(),
            registrable(old(self).entries(), manifest) ==> old(self).entries().len() < usize::MAX,
        ensures
            final(self).wf(),
            r is Ok <==> registrable(old(self).entries(), manifest),
            r is Ok ==> final(self).counter() == old(self).counter() + 1 && final(self).entries()
                == old(self).entries().push(
                LoadedPlugin {
                    manifest,
                    tools,
                    state: PluginState::Registered,
                    config: None,
                    load_order: (old(self).counter() + 1) as usize,
                },
            ),
            r is Err ==> final(self).entries() == old(self).entries() && final(self).counter()
                == old(self).counter(),
            final(self).plugins_dir_view() == old(self).plugins_dir_view(),
            !manifest_valid(manifest) ==> (r matches Err(PluginError::InvalidParameters(e))
                && manifest_problem(manifest.id@, manifest.name@, manifest.description@) == Some(e@)),
            manifest_valid(manifest) && has_id(old(self).entries(), manifest.id@) ==> (r matches Err(
                PluginError::ExecutionFailed(e),
            ) && e@ == duplicate_text(manifest.id@)),
            manifest_valid(manifest) && !has_id(old(self).entries(), manifest.id@) && first_unmet(
                old(self).entries(),
                manifest.dependencies@,
            ) >= 0 ==> (r matches Err(PluginError::ExecutionFailed(e)) && e@ == dependency_text(
                old(self).entries(),
                manifest.id@,
                manifest.dependencies@[first_unmet(old(self).entries(), manifest.dependencies@)],
            )),
    {
        if let Err(e) = manifest.validate() {
            return Err(PluginError::InvalidParameters(e));
        }
        if self.position(manifest.id.as_str()).is_some() {
            let mut out = chars_of("Plugin '");
            push_str(&mut out, manifest.id.as_str());
            push_str(&mut out, "' is already registered");
            return Err(PluginError::ExecutionFailed(string_of(out.as_slice())));
        }
        let mut k: usize = 0;
        while k < manifest.dependencies.len()
            invariant
                self.wf(),
                manifest_valid(manifest),
                !has_id(self.entries(), manifest.id@),
                k <= manifest.dependencies@.len(),
                forall|j: int| 0 <= j < k ==> dependency_met(self.entries(), #[trigger] manifest.dependencies@[j]),
            decreases manifest.dependencies@.len() - k,
        {
            if let Some(e) = self.dependency_error(&manifest.id, &manifest.dependencies[k]) {
                proof {
                    let deps = manifest.dependencies@;
                    assert(!dependency_met(self.entries(), deps[k as int]));
                    let f = first_unmet(self.entries(), deps);
                    assert(0 <= f < deps.len() && !dependency_met(self.entries(), deps[f]) && forall|j: int|
                        0 <= j < f ==> dependency_met(self.entries(), #[trigger] deps[j]));
                    if f < k {
                        assert(dependency_met(self.entries(), deps[f]));
                    }
                    if f > k {
                        assert(dependency_met(self.entries(), deps[k as int]));
                    }
                }
                return Err(e);
            }
            k = k + 1;
        }
        let ghost before = self.plugins@;
        self.load_counter = self.load_counter + 1;
        let order = self.load_counter;
        self.plugins.push(
            LoadedPlugin {
                manifest,
                tools,
                state: PluginState::Registered,
                config: None,
                load_order: order,
            },
        );
        proof {
            assert forall|i: int, j: int|
                0 <= i < j < self.plugins@.len() implies (#[trigger] self.plugins@[i]).manifest.id@
                != (#[trigger] self.plugins@[j]).manifest.id@ by {
                if j == self.plugins@.len() - 1 {
                    assert(before[i] == self.plugins@[i]);
                }
            }
            assert forall|a: int| 0 <= a < self.plugins@.len() implies manifest_valid(#[trigger] self.plugins@[a].manifest) by {
                if a < before.len() {
                    assert(before[a] == self.plugins@[a]);
                }
            }
        }
        Ok(())
    }

    /// Registers a capability together with its configuration.
    pub fn register_with_config(
        &mut self,
        manifest: PluginManifest,
        tools: Vec<ToolDefinition>,
        config: Value,
    ) -> (r: Result<(), PluginError>)
        requires
            old(self).wf(),
            registrable(old(self).entries(), manifest) ==> old(self).entries().len() < usize::MAX,
        ensures
            final(self).wf(),
            r is Ok <==> registrable(old(self).entries(), manifest),
            r is Ok ==> final(self).counter() == old(self).counter() + 1 && final(self).entries()
                == old(self).entries().push(
                LoadedPlugin {
                    manifest,
                    tools,
                    state: PluginState::Registered,
                    config: Some(config),
                    load_order: (old(self).counter() + 1) as usize,
                },
            ),
            r is Err ==> final(self).entries() == old(self).entries() && final(self).counter()
                == old(self).counter(),
    {
        let r = self.register(manifest, tools);
        if r.is_ok() {
            let last = self.plugins.len() - 1;
            let ghost before = self.plugins@;
            self.set_config(last, config);
            proof {
                assert(self.plugins@ =~= before.update(last as int, LoadedPlugin { config: Some(config), ..before[last as int] }));
            }
        }
        r
    }

    fn set_config(&mut self, i: usize, config: Value)
        requires
            old(self).wf(),
            i < old(self).entries().len(),
        ensures
            final(self).wf(),
            final(self).counter() == old(self).counter(),
            final(self).entries() == old(self).entries().update(
                i as int,
                LoadedPlugin { config: Some(config), ..old(self).entries()[i as int] },
            ),
            final(self).plugins_dir_view() == old(self).plugins_dir_view(),
    {
        let ghost before = self.plugins@;
        let mut taken = self.plugins.remove(i);
        taken.config = Some(config);
        self.plugins.insert(i, taken);
        proof {
            assert(self.plugins@ =~= before.update(i as int, LoadedPlugin { config: Some(config), ..before[i as int] }));
            assert forall|a: int, b: int|
                0 <= a < b < self.plugins@.len() implies (#[trigger] self.plugins@[a]).manifest.id@
                != (#[trigger] self.plugins@[b]).manifest.id@ by {
                assert(before[a].manifest.id@ != before[b].manifest.id@);
            }
            assert forall|a: int| 0 <= a < self.plugins@.len() implies manifest_valid(#[trigger] self.plugins@[a].manifest) by {
                assert(manifest_valid(before[a].manifest));
            }
            assert forall|a: int, b: int|
                0 <= a < b < self.plugins@.len() implies (#[trigger] self.plugins@[a]).load_order
                < (#[trigger] self.plugins@[b]).load_order by {
                assert(before[a].load_order < before[b].load_order);
            }
            assert forall|a: int| 0 <= a < self.plugins@.len() implies 1 <= (#[trigger] self.plugins@[a]).load_order
                <= self.load_counter by {
                assert(before[a].load_order == self.plugins@[a].load_order);
            }
        }
    }

    fn set_state(&mut self, i: usize, state: PluginState)
        requires
            old(self).wf(),
            i < old(self).entries().len(),
        ensures
            final(self).wf(),
            final(self).counter() == old(self).counter(),
            final(self).entries() == with_state(old(self).entries(), i as int, state),
            final(self).plugins_dir_view() == old(self).plugins_dir_view(),
    {
        let ghost before = self.plugins@;
        let mut taken = self.plugins.remove(i);
        taken.state = state;
        self.plugins.insert(i, taken);
        proof {
            assert(self.plugins@ =~= with_state(before, i as int, state));
            assert forall|a: int, b: int|
                0 <= a < b < self.plugins@.len() implies (#[trigger] self.plugins@[a]).manifest.id@
                != (#[trigger] self.plugins@[b]).manifest.id@ by {
                assert(before[a].manifest.id@ != before[b].manifest.id@);
            }
            assert forall|a: int| 0 <= a < self.plugins@.len() implies manifest_valid(#[trigger] self.plugins@[a].manifest) by {
                assert(manifest_valid(before[a].manifest));
            }
            assert forall|a: int, b: int|
                0 <= a < b < self.plugins@.len() implies (#[trigger] self.plugins@[a]).load_order
                < (#[trigger] self.plugins@[b]).load_order by {
                assert(before[a].load_order < before[b].load_order);
            }
            assert forall|a: int| 0 <= a < self.plugins@.len() implies 1 <= (#[trigger] self.plugins@[a]).load_order
                <= self.load_counter by {
                assert(before[a].load_order == self.plugins@[a].load_order);
            }
        }
    }

    fn set_active(&mut self, i: usize, tools: Vec<ToolDefinition>)
        requires
            old(self).wf(),
            i < old(self).entries().len(),
        ensures
            final(self).wf(),
            final(self).counter() == old(self).counter(),
            final(self).entries() == old(self).entries().update(
                i as int,
                LoadedPlugin { state: PluginState::Active, tools, ..old(self).entries()[i as int] },
            ),
            final(self).plugins_dir_view() == old(self).plugins_dir_view(),
    {
        let ghost before = self.plugins@;
        let mut taken = self.plugins.remove(i);
        taken.state = PluginState::Active;
        taken.tools = tools;
        self.plugins.insert(i, taken);
        proof {
            assert(self.plugins@ =~= before.update(i as int, LoadedPlugin { state: PluginState::Active, tools, ..before[i as int] }));
            assert forall|a: int, b: int|
                0 <= a < b < self.plugins@.len() implies (#[trigger] self.plugins@[a]).manifest.id@
                != (#[trigger] self.plugins@[b]).manifest.id@ by {
                assert(before[a].manifest.id@ != before[b].manifest.id@);
            }
            assert forall|a: int| 0 <= a < self.plugins@.len() implies manifest_valid(#[trigger] self.plugins@[a].manifest) by {
                assert(manifest_valid(before[a].manifest));
            }
            assert forall|a: int, b: int|
                0 <= a < b < self.plugins@.len() implies (#[trigger] self.plugins@[a]).load_order
                < (#[trigger] self.plugins@[b]).load_order by {
                assert(before[a].load_order < before[b].load_order);
            }
            assert forall|a: int| 0 <= a < self.plugins@.len() implies 1 <= (#[trigger] self.plugins@[a]).load_order
                <= self.load_counter by {
                assert(before[a].load_order == self.plugins@[a].load_order);
            }
        }
    }
}


impl PluginLoader {
    /// The state of capability `id`, if it is registered.
    pub fn get_state(&self, id: &str) -> (r: Option<PluginState>)
        ensures
            r is None <==> !has_id(self.entries(), id@),
            r matches Some(s) ==> s == self.entries()[index_of(self.entries(), id@)].state,
    {
        match self.position(id) {
            Some(i) => Some(self.plugins[i].state),
            None => None,
        }
    }

    /// The manifest of capability `id`, if it is registered.
    pub fn get(&self, id: &str) -> (r: Option<&PluginManifest>)
        ensures
            r is None <==> !has_id(self.entries(), id@),
            r matches Some(m) ==> *m == self.entries()[index_of(self.entries(), id@)].manifest,
    {
        match self.position(id) {
            Some(i) => Some(&self.plugins[i].manifest),
            None => None,
        }
    }

    /// Starts initializing capability `id`: a `Registered` capability becomes `Initializing`,
    /// and the context for its initialization hook is handed back. A capability in any other
    /// state is left as it is, and `None` comes back.
    pub fn begin_init(&mut self, id: &str) -> (r: Result<Option<PluginContext>, PluginError>)
        requires
            old(self).wf(),
        ensures
            final(self).wf(),
            final(self).counter() == old(self).counter(),
            final(self).plugins_dir_view() == old(self).plugins_dir_view(),
            !has_id(old(self).entries(), id@) ==> (r matches Err(PluginError::PluginNotFound(e)) && e@
                == id@) && final(self).entries() == old(self).entries(),
            has_id(old(self).entries(), id@) ==> r is Ok,
            has_id(old(self).entries(), id@) && old(self).entries()[index_of(old(self).entries(), id@)].state
                == PluginState::Registered ==> final(self).entries() == with_state(
                old(self).entries(),
                index_of(old(self).entries(), id@),
                PluginState::Initializing,
            ) && (r matches Ok(Some(ctx)) && ctx.config == old(self).entries()[index_of(
                old(self).entries(),
                id@,
            )].config && ctx.data_dir@ == join_path(old(self).context_dir(), id@)
                && ctx.debug == old(self).context_debug()),
            has_id(old(self).entries(), id@) && old(self).entries()[index_of(old(self).entries(), id@)].state
                != PluginState::Registered ==> final(self).entries() == old(self).entries() && r
                matches Ok(None),
    {
        match self.position(id) {
            None => Err(PluginError::PluginNotFound(String::from_str(id))),
            Some(i) => {
                if self.plugins[i].state != PluginState::Registered {
                    return Ok(None);
                }
                let config = self.plugins[i].config.clone();
                let data_dir = join_dir(&self.context.data_dir, id);
                let debug = self.context.debug;
                self.set_state(i, PluginState::Initializing);
                Ok(Some(PluginContext { config, data_dir, debug }))
            },
        }
    }

    /// The base data directory of the context handed to initialization hooks.
    pub closed spec fn context_dir(&self) -> Seq<char> {
        self.context.data_dir@
    }

    /// Whether the context handed to initialization hooks is in debug mode.
    pub closed spec fn context_debug(&self) -> bool {
        self.context.debug
    }

    /// Completes the initialization of capability `id` with the outcome of its hook: on success
    /// it becomes `Active` and offers the given tools; on failure it becomes `Error` and the
    /// failure is handed back. Only an `Initializing` capability changes state.
    pub fn finish_init(&mut self, id: &str, outcome: Result<Vec<ToolDefinition>, PluginError>) -> (r: Result<(), PluginError>)
        requires
            old(self).wf(),
        ensures
            final(self).wf(),
            final(self).counter() == old(self).counter(),
            final(self).plugins_dir_view() == old(self).plugins_dir_view(),
            !has_id(old(self).entries(), id@) ==> (r matches Err(PluginError::PluginNotFound(e)) && e@
                == id@) && final(self).entries() == old(self).entries(),
            has_id(old(self).entries(), id@) ==> (r is Ok <==> outcome is Ok),
            has_id(old(self).entries(), id@) ==> (outcome matches Err(e) ==> r == Err::<(), PluginError>(e)),
            has_id(old(self).entries(), id@) && old(self).entries()[index_of(old(self).entries(), id@)].state
                == PluginState::Initializing ==> (match outcome {
                Ok(tools) => final(self).entries() == old(self).entries().update(
                    index_of(old(self).entries(), id@),
                    LoadedPlugin {
                        state: PluginState::Active,
                        tools,
                        ..old(self).entries()[index_of(old(self).entries(), id@)]
                    },
                ),
                Err(_) => final(self).entries() == with_state(
                    old(self).entries(),
                    index_of(old(self).entries(), id@),
                    PluginState::Error,
                ),
            }),
            has_id(old(self).entries(), id@) && old(self).entries()[index_of(old(self).entries(), id@)].state
                != PluginState::Initializing ==> final(self).entries() == old(self).entries(),
    {
        match self.position(id) {
            None => Err(PluginError::PluginNotFound(String::from_str(id))),
            Some(i) => {
                let initializing = self.plugins[i].state == PluginState::Initializing;
                match outcome {
                    Ok(tools) => {
                        if initializing {
                            self.set_active(i, tools);
                        }
                        Ok(())
                    },
                    Err(e) => {
                        if initializing {
                            self.set_state(i, PluginState::Error);
                        }
                        Err(e)
                    },
                }
            },
        }
    }

    /// Disables capability `id`: an `Active` capability becomes `Disabled` and `true` comes back;
    /// any other state is left as it is.
    pub fn disable_plugin(&mut self, id: &str) -> (r: Result<bool, PluginError>)
        requires
            old(self).wf(),
        ensures
            final(self).wf(),
            final(self).counter() == old(self).counter(),
            final(self).plugins_dir_view() == old(self).plugins_dir_view(),
            !has_id(old(self).entries(), id@) ==> (r matches Err(PluginError::PluginNotFound(e)) && e@
                == id@) && final(self).entries() == old(self).entries(),
            has_id(old(self).entries(), id@) ==> (r matches Ok(changed) && changed == (old(self).entries()[index_of(
                old(self).entries(),
                id@,
            )].state == PluginState::Active)),
            r matches Ok(true) ==> final(self).entries() == with_state(
                old(self).entries(),
                index_of(old(self).entries(), id@),
                PluginState::Disabled,
            ),
            r matches Ok(false) ==> final(self).entries() == old(self).entries(),
    {
        self.move_state(id, PluginState::Active, PluginState::Disabled)
    }

    /// Enables capability `id`: a `Disabled` capability becomes `Active` again and `true` comes
    /// back; any other state is left as it is.
    pub fn enable_plugin(&mut self, id: &str) -> (r: Result<bool, PluginError>)
        requires
            old(self).wf(),
        ensures
            final(self).wf(),
            final(self).counter() == old(self).counter(),
            final(self).plugins_dir_view() == old(self).plugins_dir_view(),
            !has_id(old(self).entries(), id@) ==> (r matches Err(PluginError::PluginNotFound(e)) && e@
                == id@) && final(self).entries() == old(self).entries(),
            has_id(old(self).entries(), id@) ==> (r matches Ok(changed) && changed == (old(self).entries()[index_of(
                old(self).entries(),
                id@,
            )].state == PluginState::Disabled)),
            r matches Ok(true) ==> final(self).entries() == with_state(
                old(self).entries(),
                index_of(old(self).entries(), id@),
                PluginState::Active,
            ),
            r matches Ok(false) ==> final(self).entries() == old(self).entries(),
    {
        self.move_state(id, PluginState::Disabled, PluginState::Active)
    }

    /// Finishes the shutdown of capability `id`: a `ShuttingDown` capability is `Registered`
    /// again, ready to be initialized anew, and `true` comes back.
    pub fn finish_shutdown(&mut self, id: &str) -> (r: Result<bool, PluginError>)
        requires
            old(self).wf(),
        ensures
            final(self).wf(),
            final(self).counter() == old(self).counter(),
            final(self).plugins_dir_view() == old(self).plugins_dir_view(),
            !has_id(old(self).entries(), id@) ==> (r matches Err(PluginError::PluginNotFound(e)) && e@
                == id@) && final(self).entries() == old(self).entries(),
            has_id(old(self).entries(), id@) ==> (r matches Ok(changed) && changed == (old(self).entries()[index_of(
                old(self).entries(),
                id@,
            )].state == PluginState::ShuttingDown)),
            r matches Ok(true) ==> final(self).entries() == with_state(
                old(self).entries(),
                index_of(old(self).entries(), id@),
                PluginState::Registered,
            ),
            r matches Ok(false) ==> final(self).entries() == old(self).entries(),
    {
        self.move_state(id, PluginState::ShuttingDown, PluginState::Registered)
    }

    /// Starts shutting down capability `id`: an `Active` or `Disabled` capability becomes
    /// `ShuttingDown` and `true` comes back; any other state is left as it is.
    pub fn begin_shutdown(&mut self, id: &str) -> (r: Result<bool, PluginError>)
        requires
            old(self).wf(),
        ensures
            final(self).wf(),
            final(self).counter() == old(self).counter(),
            final(self).plugins_dir_view() == old(self).plugins_dir_view(),
            !has_id(old(self).entries(), id@) ==> (r matches Err(PluginError::PluginNotFound(e)) && e@
                == id@) && final(self).entries() == old(self).entries(),
            has_id(old(self).entries(), id@) ==> (r matches Ok(changed) && changed == (old(self).entries()[index_of(
                old(self).entries(),
                id@,
            )].state == PluginState::Active || old(self).entries()[index_of(old(self).entries(), id@)].state
                == PluginState::Disabled)),
            r matches Ok(true) ==> final(self).entries() == with_state(
                old(self).entries(),
                index_of(old(self).entries(), id@),
                PluginState::ShuttingDown,
            ),
            r matches Ok(false) ==> final(self).entries() == old(self).entries(),
    {
        match self.position(id) {
            None => Err(PluginError::PluginNotFound(String::from_str(id))),
            Some(i) => {
                let s = self.plugins[i].state;
                if s == PluginState::Active || s == PluginState::Disabled {
                    self.set_state(i, PluginState::ShuttingDown);
                    Ok(true)
                } else {
                    Ok(false)
                }
            },
        }
    }

    fn move_state(&mut self, id: &str, from: PluginState, to: PluginState) -> (r: Result<bool, PluginError>)
        requires
            old(self).wf(),
        ensures
            final(self).wf(),
            final(self).counter() == old(self).counter(),
            final(self).plugins_dir_view() == old(self).plugins_dir_view(),
            !has_id(old(self).entries(), id@) ==> (r matches Err(PluginError::PluginNotFound(e)) && e@
                == id@) && final(self).entries() == old(self).entries(),
            has_id(old(self).entries(), id@) ==> (r matches Ok(changed) && changed == (old(self).entries()[index_of(
                old(self).entries(),
                id@,
            )].state == from)),
            r matches Ok(true) ==> final(self).entries() == with_state(
                old(self).entries(),
                index_of(old(self).entries(), id@),
                to,
            ),
            r matches Ok(false) ==> final(self).entries() == old(self).entries(),
    {
        match self.position(id) {
            None => Err(PluginError::PluginNotFound(String::from_str(id))),
            Some(i) => {
                if self.plugins[i].state == from {
                    self.set_state(i, to);
                    Ok(true)
                } else {
                    Ok(false)
                }
            },
        }
    }

    /// The identifiers in ascending load order: the order in which capabilities are initialized.
    pub fn init_order(&self) -> (r: Vec<String>)
        requires
            self.wf(),
        ensures
            r@.len() == self.entries().len(),
            forall|i: int| 0 <= i < r@.len() ==> (#[trigger] r@[i])@ == self.entries()[i].manifest.id@,
    {
        let mut out: Vec<String> = Vec::new();
        let mut i: usize = 0;
        while i < self.plugins.len()
            invariant
                i <= self.plugins@.len(),
                out@.len() == i,
                forall|j: int| 0 <= j < i ==> (#[trigger] out@[j])@ == self.plugins@[j].manifest.id@,
            decreases self.plugins@.len() - i,
        {
            out.push(self.plugins[i].manifest.id.clone());
            i = i + 1;
        }
        out
    }

    /// The identifiers in descending load order: the order in which capabilities are shut down.
    pub fn shutdown_order(&self) -> (r: Vec<String>)
        requires
            self.wf(),
        ensures
            r@.len() == self.entries().len(),
            forall|i: int|
                0 <= i < r@.len() ==> (#[trigger] r@[i])@ == self.entries()[self.entries().len() - 1
                    - i].manifest.id@,
    {
        let mut out: Vec<String> = Vec::new();
        let n = self.plugins.len();
        let mut i: usize = 0;
        while i < n
            invariant
                n == self.plugins@.len(),
                i <= n,
                out@.len() == i,
                forall|j: int| 0 <= j < i ==> (#[trigger] out@[j])@ == self.plugins@[n - 1 - j].manifest.id@,
            decreases n - i,
        {
            out.push(self.plugins[n - 1 - i].manifest.id.clone());
            i = i + 1;
        }
        out
    }

    /// The manifests of all registered capabilities, in registration order.
    pub fn list(&self) -> (r: Vec<PluginManifest>)
        ensures
            r@.len() == self.entries().len(),
            forall|i: int|
                0 <= i < r@.len() ==> crate::manifest::same_identity(#[trigger] r@[i], self.entries()[i].manifest),
    {
        let mut out: Vec<PluginManifest> = Vec::new();
        let mut i: usize = 0;
        while i < self.plugins.len()
            invariant
                i <= self.plugins@.len(),
                out@.len() == i,
                forall|j: int|
                    0 <= j < i ==> crate::manifest::same_identity(#[trigger] out@[j], self.plugins@[j].manifest),
            decreases self.plugins@.len() - i,
        {
            out.push(self.plugins[i].manifest.clone());
            i = i + 1;
        }
        out
    }

    /// The identifiers of the active capabilities, in registration order.
    pub fn list_active(&self) -> (r: Vec<String>)
        ensures
            r@.map_values(|s: String| s@) == active_ids(self.entries()),
    {
        let mut out: Vec<String> = Vec::new();
        let mut i: usize = 0;
        while i < self.plugins.len()
            invariant
                i <= self.plugins@.len(),
                out@.map_values(|s: String| s@) == active_ids(self.plugins@.take(i as int)),
            decreases self.plugins@.len() - i,
        {
            let ghost before = out@;
            if self.plugins[i].state == PluginState::Active {
                out.push(self.plugins[i].manifest.id.clone());
                proof {
                    assert(out@.map_values(|s: String| s@) =~= before.map_values(|s: String| s@).push(self.plugins@[i as int].manifest.id@));
                }
            }
            proof {
                assert(self.plugins@.take(i + 1).drop_last() =~= self.plugins@.take(i as int));
            }
            i = i + 1;
        }
        proof {
            assert(self.plugins@.take(i as int) =~= self.plugins@);
        }
        out
    }

    /// The tool catalog: the tools of every `Active` capability, in registration order.
    pub fn all_tools(&self) -> (r: Vec<ToolDefinition>)
        ensures
            r@ == active_tools(self.entries()),
    {
        let mut out: Vec<ToolDefinition> = Vec::new();
        let mut i: usize = 0;
        while i < self.plugins.len()
            invariant
                i <= self.plugins@.len(),
                out@ == active_tools(self.plugins@.take(i as int)),
            decreases self.plugins@.len() - i,
        {
            let ghost before = out@;
            if self.plugins[i].state == PluginState::Active {
                let tools = &self.plugins[i].tools;
                let mut k: usize = 0;
                while k < tools.len()
                    invariant
                        k <= tools@.len(),
                        out@ == before + tools@.take(k as int),
                    decreases tools@.len() - k,
                {
                    out.push(tools[k].clone());
                    proof {
                        assert(tools@.take(k + 1) =~= tools@.take(k as int).push(tools@[k as int]));
                    }
                    k = k + 1;
                }
                proof {
                    assert(tools@.take(k as int) =~= tools@);
                }
            }
            proof {
                assert(self.plugins@.take(i + 1).drop_last() =~= self.plugins@.take(i as int));
                assert(out@ =~= active_tools(self.plugins@.take(i + 1)));
            }
            i = i + 1;
        }
        proof {
            assert(self.plugins@.take(i as int) =~= self.plugins@);
        }
        out
    }

    fn offers_tool(p: &LoadedPlugin, tool: &str) -> (r: bool)
        ensures
            r == offers(*p, tool@),
    {
        if p.state != PluginState::Active {
            return false;
        }
        let target = String::from_str(tool);
        let mut k: usize = 0;
        while k < p.tools.len()
            invariant
                k <= p.tools@.len(),
                target@ == tool@,
                p.state == PluginState::Active,
                forall|j: int| 0 <= j < k ==> (#[trigger] p.tools@[j]).name@ != tool@,
            decreases p.tools@.len() - k,
        {
            if p.tools[k].name == target {
                assert(p.tools@[k as int].name@ == tool@);
                return true;
            }
            k = k + 1;
        }
        false
    }

    /// The position of the first capability, in registration order, that offers `tool`.
    fn owner(&self, tool: &str) -> (r: Option<usize>)
        ensures
            r is None <==> owner_of(self.entries(), tool@) == -1,
            r matches Some(i) ==> i as int == owner_of(self.entries(), tool@) && i < self.entries().len(),
    {
        let mut i: usize = 0;
        while i < self.plugins.len()
            invariant
                i <= self.plugins@.len(),
                forall|j: int| 0 <= j < i ==> !offers(#[trigger] self.plugins@[j], tool@),
            decreases self.plugins@.len() - i,
        {
            if Self::offers_tool(&self.plugins[i], tool) {
                proof {
                    let o = owner_of(self.plugins@, tool@);
                    assert(offers(self.plugins@[i as int], tool@));
                    if o < i {
                        assert(!offers(self.plugins@[o], tool@));
                    }
                    if o > i {
                        assert(!offers(self.plugins@[i as int], tool@));
                    }
                }
                return Some(i);
            }
            i = i + 1;
        }
        None
    }

    /// The identifier of the capability that serves `tool`: among the `Active` capabilities that
    /// declare a tool of that name, the one registered first.
    pub fn find_plugin_for_tool(&self, tool: &str) -> (r: Option<String>)
        ensures
            r is None <==> owner_of(self.entries(), tool@) == -1,
            r matches Some(id) ==> id@ == self.entries()[owner_of(self.entries(), tool@)].manifest.id@,
    {
        match self.owner(tool) {
            Some(i) => Some(self.plugins[i].manifest.id.clone()),
            None => None,
        }
    }

    /// Resolves a tool call to the capability that serves it, or fails with `ToolNotFound` when
    /// no `Active` capability offers the tool. The manifest's confirmation flag is reported and
    /// does not block the call.
    pub fn resolve_tool(&self, tool: &str) -> (r: Result<ToolRoute, PluginError>)
        ensures
            owner_of(self.entries(), tool@) == -1 ==> (r matches Err(PluginError::ToolNotFound(t)) && t@
                == tool@),
            owner_of(self.entries(), tool@) != -1 ==> (r matches Ok(route) && route.plugin_id@
                == self.entries()[owner_of(self.entries(), tool@)].manifest.id@
                && route.requires_confirmation == self.entries()[owner_of(
                self.entries(),
                tool@,
            )].manifest.requires_confirmation),
    {
        match self.owner(tool) {
            Some(i) => Ok(
                ToolRoute {
                    plugin_id: self.plugins[i].manifest.id.clone(),
                    requires_confirmation: self.plugins[i].manifest.requires_confirmation,
                },
            ),
            None => Err(PluginError::ToolNotFound(String::from_str(tool))),
        }
    }

    /// The number of registered capabilities.
    pub fn len(&self) -> (r: usize)
        ensures
            r == self.entries().len(),
    {
        self.plugins.len()
    }

    /// Whether no capability is registered.
    pub fn is_empty(&self) -> (r: bool)
        ensures
            r == (self.entries().len() == 0),
    {
        self.plugins.len() == 0
    }
}

impl Default for PluginLoader {
    fn default() -> (r: Self)
        ensures
            r.wf(),
            r.entries().len() == 0,
            r.counter() == 0,
    {
        PluginLoader::new()
    }
}

/// The identifiers of the active capabilities, in registration order.
pub open spec fn active_ids(entries: Seq<LoadedPlugin>) -> Seq<Seq<char>>
    decreases entries.len(),
{
    if entries.len() == 0 {
        Seq::empty()
    } else if entries.last().state == PluginState::Active {
        active_ids(entries.drop_last()).push(entries.last().manifest.id@)
    } else {
        active_ids(entries.drop_last())
    }
}

fn join_dir(base: &String, id: &str) -> (r: String)
    ensures
        r@ == join_path(base@, id@),
{
    let mut out = chars_of(base.as_str());
    if out.len() == 0 {
        return String::from_str(id);
    }
    if out[out.len() - 1] != '/' {
        out.push('/');
    }
    push_str(&mut out, id);
    string_of(out.as_slice())
}

/// A pass over the registry in a fixed order of identifiers. An initialization pass stops at
/// the first failure (fail-fast); a shutdown pass carries on past failures (best-effort).
pub struct BulkRun {
    order: Vec<String>,
    next: usize,
    stop_on_failure: bool,
    stopped: bool,
}

impl BulkRun {
    /// The identifiers of the pass, in order.
    pub closed spec fn order_view(&self) -> Seq<Seq<char>> {
        self.order@.map_values(|s: String| s@)
    }

    /// How many identifiers the pass has handed out.
    pub closed spec fn position(&self) -> nat {
        self.next as nat
    }

    /// Whether a failure ends the pass.
    pub closed spec fn fail_fast(&self) -> bool {
        self.stop_on_failure
    }

    /// Whether the pass has ended on a failure.
    pub closed spec fn stopped(&self) -> bool {
        self.stopped
    }

    pub closed spec fn inv(&self) -> bool {
        self.next <= self.order@.len()
    }

    /// The next capability to handle, or `None` when the pass is over: every identifier was
    /// handed out, or an initialization pass met a failure.
    pub fn next_id(&mut self) -> (r: Option<String>)
        requires
            old(self).inv(),
        ensures
            final(self).inv(),
            final(self).order_view() == old(self).order_view(),
            final(self).fail_fast() == old(self).fail_fast(),
            final(self).stopped() == old(self).stopped(),
            old(self).stopped() || old(self).position() >= old(self).order_view().len() ==> r is None
                && final(self).position() == old(self).position(),
            !old(self).stopped() && old(self).position() < old(self).order_view().len() ==> (r matches Some(id)
                && id@ == old(self).order_view()[old(self).position() as int] && final(self).position()
                == old(self).position() + 1),
    {
        if self.stopped || self.next >= self.order.len() {
            return None;
        }
        let id = self.order[self.next].clone();
        self.next = self.next + 1;
        Some(id)
    }

    /// Records the outcome of the capability last handed out.
    pub fn record(&mut self, succeeded: bool)
        requires
            old(self).inv(),
        ensures
            final(self).inv(),
            final(self).order_view() == old(self).order_view(),
            final(self).position() == old(self).position(),
            final(self).fail_fast() == old(self).fail_fast(),
            final(self).stopped() == (old(self).stopped() || (!succeeded && old(self).fail_fast())),
    {
        if !succeeded && self.stop_on_failure {
            self.stopped = true;
        }
    }
}

impl PluginLoader {
    /// The initialization pass: ascending load order, stopping at the first failure.
    pub fn init_run(&self) -> (r: BulkRun)
        requires
            self.wf(),
        ensures
            r.inv(),
            r.order_view() == self.entries().map_values(|p: LoadedPlugin| p.manifest.id@),
            r.position() == 0,
            r.fail_fast(),
            !r.stopped(),
    {
        let order = self.init_order();
        assert(order@.map_values(|s: String| s@) =~= self.entries().map_values(|p: LoadedPlugin| p.manifest.id@));
        BulkRun { order, next: 0, stop_on_failure: true, stopped: false }
    }

    /// The shutdown pass: descending load order, carrying on past failures.
    pub fn shutdown_run(&self) -> (r: BulkRun)
        requires
            self.wf(),
        ensures
            r.inv(),
            r.order_view() == self.entries().reverse().map_values(|p: LoadedPlugin| p.manifest.id@),
            r.position() == 0,
            !r.fail_fast(),
            !r.stopped(),
    {
        let order = self.shutdown_order();
        assert(order@.map_values(|s: String| s@) =~= self.entries().reverse().map_values(|p: LoadedPlugin| p.manifest.id@));
        BulkRun { order, next: 0, stop_on_failure: false, stopped: false }
    }
}

} // verus!
