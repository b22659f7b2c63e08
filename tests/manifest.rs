use moxie_ai::manifest::{
    ConfigFieldBuilder, ConfigFieldType, PluginCategory, PluginManifest, Version,
};

#[test]
fn test_version_compatibility() {
    let v1 = Version::new(1, 2, 3);
    let v2 = Version::new(1, 2, 0);
    let v3 = Version::new(1, 3, 0);
    let v4 = Version::new(2, 0, 0);

    assert!(v1.is_compatible_with(&v2));
    assert!(!v2.is_compatible_with(&v1));
    assert!(!v1.is_compatible_with(&v3));
    assert!(!v1.is_compatible_with(&v4));
}

#[test]
fn version_is_compatible_with_itself_and_newer_minor() {
    let v = Version::new(1, 2, 3);
    assert!(v.is_compatible_with(&Version::new(1, 2, 3)));
    assert!(Version::new(1, 3, 0).is_compatible_with(&Version::new(1, 2, 9)));
    assert!(!Version::new(0, 9, 9).is_compatible_with(&Version::new(1, 0, 0)));
}

#[test]
fn version_text_and_default() {
    assert_eq!(Version::new(1, 20, 300).to_text(), "1.20.300");
    assert_eq!(Version::new(0, 0, 0).to_text(), "0.0.0");
    assert_eq!(Version::default(), Version::new(0, 1, 0));
    assert_eq!(Version::new(4294967295, 10, 9).to_text(), "4294967295.10.9");
}

#[test]
fn test_manifest_builder() {
    let manifest = PluginManifest::new("moxie.test", "Test Plugin", "A test plugin")
        .with_version(1, 0, 0)
        .with_author("John Nguyen")
        .with_category(PluginCategory::Custom)
        .with_keywords(vec!["test", "example"]);

    assert_eq!(manifest.id, "moxie.test");
    assert_eq!(manifest.version.major, 1);
    assert!(manifest.validate().is_ok());
}

#[test]
fn test_config_field_builder() {
    let field = ConfigFieldBuilder::new("allowed_paths", ConfigFieldType::PathArray)
        .label("Allowed Paths")
        .description("Directories the plugin can access")
        .required()
        .build();

    assert_eq!(field.name, "allowed_paths");
    assert!(field.required);
}

#[test]
fn manifest_validation_errors_in_order() {
    let e = PluginManifest::new("", "n", "d").validate().unwrap_err();
    assert_eq!(e, "Plugin ID cannot be empty");
    let e = PluginManifest::new("a", "", "d").validate().unwrap_err();
    assert_eq!(e, "Plugin name cannot be empty");
    let e = PluginManifest::new("a", "n", "").validate().unwrap_err();
    assert_eq!(e, "Plugin description cannot be empty");
    let e = PluginManifest::new("bad id!", "n", "d").validate().unwrap_err();
    assert_eq!(e, "Plugin ID contains invalid characters");
    assert!(PluginManifest::new("a.B-9_z", "n", "d").validate().is_ok());
    // Only ASCII letters and digits are identifier characters.
    assert!(PluginManifest::new("caf\u{e9}", "n", "d").validate().is_err());
}

#[test]
fn manifest_builder_keeps_other_fields() {
    let m = PluginManifest::new("x.y", "X", "desc").requires_confirmation();
    assert!(m.requires_confirmation);
    assert_eq!(m.version, Version::new(0, 1, 0));
    assert_eq!(m.category, PluginCategory::Custom);
    assert!(m.author.is_empty());
    let m = m.with_config_field(ConfigFieldBuilder::new("k", ConfigFieldType::Secret).build());
    assert_eq!(m.config_schema.len(), 1);
    assert_eq!(m.config_schema[0].name, "k");
    let c = m.clone();
    assert_eq!(c.id, "x.y");
    assert!(c.requires_confirmation);
}
