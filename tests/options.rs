use creator::opts::{get_config_path, get_source_dir, preset_config_file, Commands, Opts};

#[test]
fn app_test_config_path_detection() {
    let manual_path = get_config_path(Some("test-config.json".to_string()));
    assert!(manual_path.is_ok());
}

#[test]
fn app_test_source_dir_detection() {
    let manual_dir = get_source_dir(Some("test-src".to_string()));
    assert!(manual_dir.is_ok());
}

#[test]
fn config_test_config_path_detection() {
    let manual_path = get_config_path(Some("test-config.json".to_string()));
    assert!(manual_path.is_ok());
}

#[test]
fn config_test_source_dir_detection() {
    let manual_dir = get_source_dir(Some("test-src".to_string()));
    assert!(manual_dir.is_ok());
}

#[test]
fn test_config_from_opts() {
    let _opts = Opts {
        config: Some("config-clean-architecture.json".to_string()),
        source_dir: Some("src".to_string()),
        commands: Some(Commands::List { category: None }),
    };
}

#[test]
fn given_paths_are_kept() {
    assert_eq!(get_source_dir(Some("test-src".to_string())).unwrap(), "test-src");
    assert_eq!(get_config_path(Some("my.json".to_string())).unwrap(), "my.json");
}

#[test]
fn missing_paths_list_the_candidates_in_order() {
    let source = get_source_dir(None).unwrap_err();
    assert_eq!(source.candidates, vec!["src", "app", "lib"]);
    let config = get_config_path(None).unwrap_err();
    assert_eq!(
        config.candidates,
        vec!["config.json", "config-clean-architecture.json", "config-module-based.json"]
    );
}

#[test]
fn presets_name_their_files() {
    assert_eq!(
        preset_config_file("clean-architecture"),
        Some("config-clean-architecture.json".to_string())
    );
    assert_eq!(preset_config_file("module-based"), Some("config-module-based.json".to_string()));
    assert_eq!(preset_config_file("other"), None);
}

#[test]
fn only_interactive_skips_early_validation() {
    assert!(!Commands::Interactive.needs_early_validation());
    assert!(Commands::List { category: None }.needs_early_validation());
    assert!(Commands::Create { path: "a/b/c".to_string() }.needs_early_validation());
    assert!(Commands::Init { preset: None }.needs_early_validation());
}
