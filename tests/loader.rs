use moxie_ai::loader::{PluginContext, PluginLoader, PluginState};
use moxie_ai::manifest::{PluginCategory, PluginManifest, Version};
use moxie_ai::tool::{PluginError, ToolDefinition};

fn test_plugin(name: &str) -> (PluginManifest, Vec<ToolDefinition>) {
    let manifest = PluginManifest::new(&format!("test.{}", name), name, "A test plugin")
        .with_category(PluginCategory::Custom);
    let tools = vec![ToolDefinition::new(&format!("{}_tool", name), "A test tool")];
    (manifest, tools)
}

fn register(loader: &mut PluginLoader, name: &str) -> Result<(), PluginError> {
    let (m, t) = test_plugin(name);
    loader.register(m, t)
}

fn activate(loader: &mut PluginLoader, name: &str) {
    let id = format!("test.{}", name);
    let ctx = loader.begin_init(&id).unwrap();
    assert!(ctx.is_some());
    let (_, tools) = test_plugin(name);
    loader.finish_init(&id, Ok(tools)).unwrap();
}

#[test]
fn test_register_plugin() {
    let mut loader = PluginLoader::new();
    register(&mut loader, "foo").unwrap();

    assert_eq!(loader.len(), 1);
    assert!(loader.get("test.foo").is_some());
}

#[test]
fn test_duplicate_registration() {
    let mut loader = PluginLoader::new();
    register(&mut loader, "foo").unwrap();

    let result = register(&mut loader, "foo");
    assert!(result.is_err());
}

#[test]
fn test_all_tools() {
    let mut loader = PluginLoader::new();
    register(&mut loader, "foo").unwrap();
    register(&mut loader, "bar").unwrap();

    let tools = loader.all_tools();
    assert_eq!(tools.len(), 0);
}

#[test]
fn duplicate_registration_message_and_no_change() {
    let mut loader = PluginLoader::new();
    register(&mut loader, "foo").unwrap();
    match register(&mut loader, "foo") {
        Err(PluginError::ExecutionFailed(m)) => {
            assert_eq!(m, "Plugin 'test.foo' is already registered")
        }
        other => panic!("unexpected: {:?}", other),
    }
    assert_eq!(loader.len(), 1);
}

#[test]
fn missing_dependency_is_refused() {
    let mut loader = PluginLoader::new();
    let mut m = PluginManifest::new("needs.dep", "Needy", "Needs another plugin");
    m.dependencies.push(("never.registered".to_string(), Version::new(1, 0, 0)));
    match loader.register(m, vec![]) {
        Err(PluginError::ExecutionFailed(msg)) => assert_eq!(
            msg,
            "Plugin 'needs.dep' requires 'never.registered' which is not loaded"
        ),
        other => panic!("unexpected: {:?}", other),
    }
    assert!(loader.is_empty());
}

#[test]
fn incompatible_dependency_is_refused() {
    let mut loader = PluginLoader::new();
    let base = PluginManifest::new("base.lib", "Base", "Base plugin").with_version(1, 0, 0);
    loader.register(base, vec![]).unwrap();
    let mut m = PluginManifest::new("uses.base", "User", "Uses base");
    m.dependencies.push(("base.lib".to_string(), Version::new(2, 0, 0)));
    match loader.register(m, vec![]) {
        Err(PluginError::ExecutionFailed(msg)) => assert_eq!(
            msg,
            "Plugin 'uses.base' requires base.lib version 2.0.0, but 1.0.0 is loaded"
        ),
        other => panic!("unexpected: {:?}", other),
    }
    let mut ok = PluginManifest::new("uses.base", "User", "Uses base");
    ok.dependencies.push(("base.lib".to_string(), Version::new(1, 0, 0)));
    assert!(loader.register(ok, vec![]).is_ok());
    assert_eq!(loader.len(), 2);
}

#[test]
fn invalid_id_is_refused_by_validation() {
    let mut loader = PluginLoader::new();
    let m = PluginManifest::new("bad id!", "Bad", "Bad id");
    match loader.register(m, vec![]) {
        Err(PluginError::InvalidParameters(msg)) => {
            assert_eq!(msg, "Plugin ID contains invalid characters")
        }
        other => panic!("unexpected: {:?}", other),
    }
    assert!(loader.is_empty());
}

#[test]
fn lifecycle_controls_tool_visibility() {
    let mut loader = PluginLoader::new();
    register(&mut loader, "foo").unwrap();
    assert_eq!(loader.get_state("test.foo"), Some(PluginState::Registered));
    assert_eq!(loader.all_tools().len(), 0);

    activate(&mut loader, "foo");
    assert_eq!(loader.get_state("test.foo"), Some(PluginState::Active));
    let tools = loader.all_tools();
    assert_eq!(tools.len(), 1);
    assert_eq!(tools[0].name, "foo_tool");
    assert_eq!(loader.list_active(), vec!["test.foo".to_string()]);

    assert_eq!(loader.disable_plugin("test.foo").unwrap(), true);
    assert_eq!(loader.get_state("test.foo"), Some(PluginState::Disabled));
    assert_eq!(loader.all_tools().len(), 0);

    assert_eq!(loader.enable_plugin("test.foo").unwrap(), true);
    assert_eq!(loader.all_tools().len(), 1);
    // Disabling twice changes nothing the second time.
    assert_eq!(loader.disable_plugin("test.foo").unwrap(), true);
    assert_eq!(loader.disable_plugin("test.foo").unwrap(), false);
}

#[test]
fn failed_initialization_moves_to_error() {
    let mut loader = PluginLoader::new();
    register(&mut loader, "foo").unwrap();
    loader.begin_init("test.foo").unwrap();
    assert_eq!(loader.get_state("test.foo"), Some(PluginState::Initializing));
    let r = loader.finish_init("test.foo", Err(PluginError::InitFailed("no disk".to_string())));
    assert!(matches!(r, Err(PluginError::InitFailed(_))));
    assert_eq!(loader.get_state("test.foo"), Some(PluginState::Error));
    assert_eq!(loader.all_tools().len(), 0);
    // A failed capability is not initialized again by the bulk pass.
    assert!(loader.begin_init("test.foo").unwrap().is_none());
}

#[test]
fn shutdown_returns_to_registered() {
    let mut loader = PluginLoader::new();
    register(&mut loader, "foo").unwrap();
    activate(&mut loader, "foo");
    assert_eq!(loader.begin_shutdown("test.foo").unwrap(), true);
    assert_eq!(loader.get_state("test.foo"), Some(PluginState::ShuttingDown));
    assert_eq!(loader.finish_shutdown("test.foo").unwrap(), true);
    assert_eq!(loader.get_state("test.foo"), Some(PluginState::Registered));
    // A registered capability is not shut down.
    assert_eq!(loader.begin_shutdown("test.foo").unwrap(), false);
}

#[test]
fn unknown_plugin_is_reported() {
    let mut loader = PluginLoader::new();
    assert!(matches!(loader.begin_init("nope"), Err(PluginError::PluginNotFound(ref s)) if s == "nope"));
    assert!(matches!(loader.disable_plugin("nope"), Err(PluginError::PluginNotFound(_))));
    assert!(loader.get_state("nope").is_none());
}

#[test]
fn init_and_shutdown_orders() {
    let mut loader = PluginLoader::new();
    register(&mut loader, "a").unwrap();
    register(&mut loader, "b").unwrap();
    register(&mut loader, "c").unwrap();
    assert_eq!(loader.init_order(), vec!["test.a", "test.b", "test.c"]);
    assert_eq!(loader.shutdown_order(), vec!["test.c", "test.b", "test.a"]);
    let listed: Vec<String> = loader.list().into_iter().map(|m| m.id).collect();
    assert_eq!(listed, vec!["test.a", "test.b", "test.c"]);
}

#[test]
fn unknown_tool_is_not_found_whatever_is_active() {
    let mut loader = PluginLoader::new();
    match loader.resolve_tool("nonexistent_tool") {
        Err(PluginError::ToolNotFound(t)) => assert_eq!(t, "nonexistent_tool"),
        _ => panic!("expected ToolNotFound"),
    }
    register(&mut loader, "foo").unwrap();
    register(&mut loader, "bar").unwrap();
    activate(&mut loader, "foo");
    activate(&mut loader, "bar");
    match loader.resolve_tool("nonexistent_tool") {
        Err(PluginError::ToolNotFound(t)) => assert_eq!(t, "nonexistent_tool"),
        _ => panic!("expected ToolNotFound"),
    }
    let route = loader.resolve_tool("bar_tool").ok().unwrap();
    assert_eq!(route.plugin_id, "test.bar");
    assert!(!route.requires_confirmation);
}

#[test]
fn earliest_registered_active_owner_wins() {
    let mut loader = PluginLoader::new();
    let shared = || vec![ToolDefinition::new("shared_tool", "Shared")];
    loader.register(PluginManifest::new("first.p", "First", "First"), shared()).unwrap();
    loader.register(PluginManifest::new("second.p", "Second", "Second"), shared()).unwrap();
    for id in ["first.p", "second.p"] {
        loader.begin_init(id).unwrap();
        loader.finish_init(id, Ok(shared())).unwrap();
    }
    assert_eq!(loader.find_plugin_for_tool("shared_tool"), Some("first.p".to_string()));
    loader.disable_plugin("first.p").unwrap();
    assert_eq!(loader.find_plugin_for_tool("shared_tool"), Some("second.p".to_string()));
}

#[test]
fn init_context_carries_config_and_data_dir() {
    let ctx = PluginContext {
        config: None,
        data_dir: "/var/lib/moxie".to_string(),
        debug: true,
    };
    let mut loader = PluginLoader::new().with_context(ctx).with_plugins_dir("plugins");
    let (m, t) = test_plugin("foo");
    loader
        .register_with_config(m, t, serde_json::Value::from(true))
        .unwrap();
    let ctx = loader.begin_init("test.foo").unwrap().unwrap();
    assert_eq!(ctx.data_dir, "/var/lib/moxie/test.foo");
    assert!(ctx.debug);
    assert_eq!(ctx.config, Some(serde_json::Value::from(true)));
}

#[test]
fn refused_invalid_id_leaves_no_trace() {
    let mut loader = PluginLoader::new();
    register(&mut loader, "foo").unwrap();
    assert!(loader.register(PluginManifest::new("bad id!", "Bad", "Bad id"), vec![]).is_err());
    assert_eq!(loader.len(), 1);
    assert!(loader.get_state("bad id!").is_none());
}

#[test]
fn initialization_pass_stops_at_first_failure() {
    let mut loader = PluginLoader::new();
    register(&mut loader, "a").unwrap();
    register(&mut loader, "b").unwrap();
    register(&mut loader, "c").unwrap();
    let mut run = loader.init_run();
    assert_eq!(run.next_id().as_deref(), Some("test.a"));
    run.record(true);
    assert_eq!(run.next_id().as_deref(), Some("test.b"));
    run.record(false);
    assert_eq!(run.next_id(), None);
}

#[test]
fn shutdown_pass_carries_on_past_failures() {
    let mut loader = PluginLoader::new();
    register(&mut loader, "a").unwrap();
    register(&mut loader, "b").unwrap();
    let mut run = loader.shutdown_run();
    assert_eq!(run.next_id().as_deref(), Some("test.b"));
    run.record(false);
    assert_eq!(run.next_id().as_deref(), Some("test.a"));
    run.record(true);
    assert_eq!(run.next_id(), None);
}
