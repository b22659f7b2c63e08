use moxie_ai::filesystem::{FilesystemConfig, FilesystemPlugin, FsRequest};
use moxie_ai::manifest::PluginCategory;
use moxie_ai::tool::PluginError;

fn test_config() -> FilesystemConfig {
    FilesystemConfig {
        allowed_paths: vec!["/tmp".to_string()],
        allow_write: true,
        max_file_size: 1024 * 1024,
    }
}

#[test]
fn test_manifest() {
    let plugin = FilesystemPlugin::new(test_config());
    let manifest = plugin.manifest();

    assert_eq!(manifest.id, "moxie.filesystem");
    assert_eq!(manifest.category, PluginCategory::Filesystem);
    assert!(!manifest.config_schema.is_empty());
    assert!(manifest.validate().is_ok());
}

#[test]
fn test_path_not_allowed() {
    let plugin = FilesystemPlugin::new(FilesystemConfig {
        allowed_paths: vec!["/allowed/path".to_string()],
        allow_write: true,
        max_file_size: 1024,
    });

    // The root does not exist, so it does not resolve; the nearest existing ancestor of the
    // path is the file system root.
    let permitted = plugin.is_path_allowed(&Some("/".to_string()), &vec![None]);
    let result = plugin.read_gate("/not/allowed/file.txt", permitted, false).unwrap();

    assert!(!result.success);
    assert!(result.error.unwrap().contains("Access denied"));
}

#[test]
fn paths_are_matched_by_component() {
    let plugin = FilesystemPlugin::new(test_config());
    let roots = vec![Some("/data".to_string()), None];
    assert!(plugin.is_path_allowed(&Some("/data".to_string()), &roots));
    assert!(plugin.is_path_allowed(&Some("/data/reports/q1.txt".to_string()), &roots));
    assert!(!plugin.is_path_allowed(&Some("/database/x".to_string()), &roots));
    assert!(!plugin.is_path_allowed(&Some("/etc/passwd".to_string()), &roots));
    assert!(!plugin.is_path_allowed(&None, &roots));
    assert!(plugin.is_path_allowed(&Some("/etc".to_string()), &vec![Some("/".to_string())]));
}

#[test]
fn no_configured_root_allows_nothing() {
    let plugin = FilesystemPlugin::default_plugin();
    assert!(!plugin.is_path_allowed(&Some("/data/x".to_string()), &vec![Some("/data".to_string())]));
}

#[test]
fn reading_outside_roots_is_denied_with_path() {
    let plugin = FilesystemPlugin::new(test_config());
    let r = plugin.read_gate("/secret", false, true).unwrap();
    assert_eq!(r.error.as_deref(), Some("Access denied: path '/secret' is not in allowed paths"));
    let r = plugin.read_gate("/tmp/missing", true, false).unwrap();
    assert_eq!(r.error.as_deref(), Some("File not found: /tmp/missing"));
    assert!(plugin.read_gate("/tmp/here", true, true).is_none());
}

#[test]
fn oversized_files_are_not_read() {
    let plugin = FilesystemPlugin::new(test_config());
    assert!(plugin.size_gate(1024 * 1024).is_none());
    let r = plugin.size_gate(1024 * 1024 + 1).unwrap();
    assert!(!r.success);
    assert_eq!(
        r.error.as_deref(),
        Some("File too large: 1048577 bytes (max: 1048576 bytes)")
    );
}

#[test]
fn writes_need_write_access_whatever_the_path() {
    let read_only = FilesystemPlugin::default_plugin();
    for permitted in [true, false] {
        let r = read_only.write_gate("/tmp/x", permitted).unwrap();
        assert!(!r.success);
        assert_eq!(r.error.as_deref(), Some("Write operations are disabled for this plugin"));
    }
    let writable = FilesystemPlugin::new(test_config());
    assert!(writable.write_gate("/tmp/x", true).is_none());
    assert!(writable.write_gate("/etc/x", false).unwrap().error.unwrap().contains("Access denied"));
}

#[test]
fn listing_checks_path_and_existence() {
    let plugin = FilesystemPlugin::new(test_config());
    let r = plugin.list_gate("/nope", true, false).unwrap();
    assert_eq!(r.error.as_deref(), Some("Directory not found: /nope"));
    assert!(plugin.list_gate("/nope", false, false).unwrap().error.unwrap().contains("Access denied"));
}

#[test]
fn write_tool_is_offered_only_when_enabled() {
    let tools = FilesystemPlugin::default_plugin().build_tools();
    let names: Vec<&str> = tools.iter().map(|t| t.name.as_str()).collect();
    assert_eq!(names, vec!["read_file", "list_directory"]);
    let tools = FilesystemPlugin::new(test_config()).build_tools();
    assert_eq!(tools.len(), 3);
    assert_eq!(tools[2].name, "write_file");
    assert!(tools[2].requires_confirmation);
    assert_eq!(tools[0].parameters["required"][0], "path");
    assert_eq!(tools[2].plugin_id.as_deref(), Some("moxie.filesystem"));
}

#[test]
fn tool_calls_are_checked_for_arguments() {
    let plugin = FilesystemPlugin::new(test_config());
    assert!(matches!(plugin.plan("read_file", Some("/a".to_string()), None), Ok(FsRequest::Read(p)) if p == "/a"));
    assert!(matches!(plugin.plan("read_file", None, None), Err(PluginError::InvalidParameters(m)) if m == "path is required"));
    assert!(matches!(plugin.plan("write_file", Some("/a".to_string()), None), Err(PluginError::InvalidParameters(m)) if m == "content is required"));
    assert!(matches!(plugin.plan("list_directory", Some("/d".to_string()), None), Ok(FsRequest::List(_))));
    assert!(matches!(plugin.plan("delete_file", None, None), Err(PluginError::ToolNotFound(t)) if t == "delete_file"));
}
