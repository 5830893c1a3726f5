use helix_plugins::plugin::{get_plugin_name_and_script, LoadError, Plugin, PluginSource};
use helix_plugins::{LoadReport, PluginManager};

fn source(file_name: &str, script: &str) -> PluginSource {
    PluginSource { file_name: file_name.to_string(), script: Ok(script.to_string()) }
}

fn loaded_name(report: &LoadReport) -> Option<String> {
    match report {
        LoadReport::Loaded { name } => Some(name.clone()),
        LoadReport::Skipped { .. } => None,
    }
}

#[test]
fn name_and_script_for_valid_entry() {
    let s = source("greeter.rhai", "print(\"hi\");");
    let (name, script) = get_plugin_name_and_script(&s).unwrap();
    assert_eq!(name, "greeter");
    assert_eq!(script, "print(\"hi\");");
}

#[test]
fn stem_keeps_inner_dots() {
    let s = source("my.plugin.rhai", "let x = 1;");
    let (name, _) = get_plugin_name_and_script(&s).unwrap();
    assert_eq!(name, "my.plugin");
}

#[test]
fn entry_without_extension_is_a_discovery_error() {
    let s = source("README", "whatever");
    match get_plugin_name_and_script(&s) {
        Err(LoadError::Discovery { path, .. }) => assert_eq!(path, "README"),
        other => panic!("expected a discovery error, got {:?}", other),
    }
    // A leading dot starts a hidden name, not an extension.
    let hidden = source(".rhai", "let x = 1;");
    assert!(matches!(
        get_plugin_name_and_script(&hidden),
        Err(LoadError::Discovery { .. })
    ));
}

#[test]
fn entry_with_other_extension_is_a_discovery_error() {
    let s = source("notes.txt", "whatever");
    match get_plugin_name_and_script(&s) {
        Err(LoadError::Discovery { path, .. }) => assert_eq!(path, "notes.txt"),
        other => panic!("expected a discovery error, got {:?}", other),
    }
}

#[test]
fn unreadable_entry_is_a_discovery_error() {
    let s = PluginSource {
        file_name: "locked.rhai".to_string(),
        script: Err("permission denied".to_string()),
    };
    match Plugin::try_from(&s) {
        Err(LoadError::Discovery { path, message }) => {
            assert_eq!(path, "locked.rhai");
            assert!(message.contains("permission denied"));
        }
        other => panic!("expected a discovery error, got {:?}", other.err()),
    }
}

#[test]
fn three_matching_entries_load_and_two_are_skipped() {
    let mut manager = PluginManager::new();
    let entries = vec![
        source("alpha.rhai", "let a = 1;"),
        source("notes.txt", "not a plugin"),
        source("beta.rhai", "let b = 2;"),
        source("README", "not a plugin either"),
        source("gamma.rhai", "let c = 3;"),
    ];
    let reports = manager.load_plugins(entries);
    assert_eq!(reports.len(), 5);
    let loaded: Vec<String> = reports.iter().filter_map(loaded_name).collect();
    assert_eq!(loaded, vec!["alpha", "beta", "gamma"]);
    let skips = reports
        .iter()
        .filter(|r| matches!(r, LoadReport::Skipped { error: LoadError::Discovery { .. } }))
        .count();
    assert_eq!(skips, 2);
}

#[test]
fn failing_source_is_excluded_from_identities() {
    let mut manager = PluginManager::new();
    let entries = vec![
        source("good.rhai", "let fine = true;"),
        source("broken.rhai", "fn ("),
        source("other.rhai", "let also_fine = true;"),
    ];
    let reports = manager.load_plugins(entries);
    assert_eq!(reports.len(), 3);
    match &reports[1] {
        LoadReport::Skipped { error: LoadError::Compile { plugin, .. } } => {
            assert_eq!(plugin, "broken");
        }
        other => panic!("expected a compile skip, got {:?}", other),
    }
    let loaded: Vec<String> = reports.iter().filter_map(loaded_name).collect();
    assert_eq!(loaded, vec!["good", "other"]);
    assert!(!loaded.iter().any(|n| n == "broken"));
}

#[test]
fn later_loads_append_in_order() {
    let mut manager = PluginManager::new();
    manager.load_plugins(vec![source("one.rhai", "let x = 1;")]);
    let reports = manager.load_plugins(vec![source("two.rhai", "let y = 2;")]);
    assert_eq!(loaded_name(&reports[0]).unwrap(), "two");
}
