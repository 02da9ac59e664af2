use creator::config::{Category, ConfigErrorKind, Item, ProjectConfig, ProjectInfo};

fn item(template: &str, ext: &str) -> Item {
    Item { template: template.to_string(), file_extension: ext.to_string() }
}

fn items(entries: &[(&str, Item)]) -> Vec<(String, Item)> {
    entries.iter().map(|(n, i)| (n.to_string(), i.clone())).collect()
}

fn project(name: &str, structure: Vec<(String, Category)>) -> ProjectConfig {
    ProjectConfig {
        project: ProjectInfo { name: name.to_string(), version: "2.0".to_string(), structure },
    }
}

fn category(
    children: Option<Vec<(String, Item)>>,
    dynamic: Option<bool>,
    defaults: Option<Vec<(String, Item)>>,
) -> Category {
    Category {
        description: None,
        children,
        allow_dynamic_children: dynamic,
        default_structure: defaults,
    }
}

#[test]
fn test_valid_config_parsing() {
    let config = project(
        "test-project",
        vec![(
            "features".to_string(),
            Category {
                description: Some("Business features".to_string()),
                children: Some(items(&[("modules", item("templates/module.hbs", "tsx"))])),
                allow_dynamic_children: None,
                default_structure: None,
            },
        )],
    );
    assert_eq!(config.project.name, "test-project");
    assert_eq!(config.project.version, "2.0");
    assert!(config.get_category("features").is_some());

    config.validate().unwrap();
}

#[test]
fn test_invalid_config_empty_name() {
    let config = project(
        "",
        vec![(
            "features".to_string(),
            category(Some(items(&[("modules", item("templates/module.hbs", "tsx"))])), None, None),
        )],
    );
    assert!(config.validate().is_err());
}

#[test]
fn test_dynamic_category_validation() {
    let config = project(
        "test-project",
        vec![(
            "features".to_string(),
            Category {
                description: Some("Dynamic features".to_string()),
                children: None,
                allow_dynamic_children: Some(true),
                default_structure: Some(items(&[("modules", item("templates/module.hbs", "tsx"))])),
            },
        )],
    );
    config.validate().unwrap();

    let features = config.get_category("features").unwrap();
    assert!(features.supports_dynamic_children());
    assert!(features.get_default_structure().is_some());
}

#[test]
fn test_mixed_category_validation() {
    let config = project(
        "test-project",
        vec![(
            "features".to_string(),
            Category {
                description: Some("Mixed features".to_string()),
                children: Some(items(&[("existing", item("templates/existing.hbs", "tsx"))])),
                allow_dynamic_children: Some(true),
                default_structure: Some(items(&[("modules", item("templates/module.hbs", "tsx"))])),
            },
        )],
    );
    config.validate().unwrap();
}

fn kind_of(c: Category) -> Option<ConfigErrorKind> {
    c.validate("cat").err().map(|e| {
        assert_eq!(e.category, "cat");
        e.kind
    })
}

#[test]
fn each_row_of_the_category_table() {
    let some = || Some(items(&[("a", item("t", "ts"))]));
    let empty = || Some(Vec::new());
    assert_eq!(kind_of(category(some(), None, None)), None);
    assert_eq!(kind_of(category(some(), Some(false), None)), None);
    assert_eq!(kind_of(category(None, Some(true), some())), None);
    assert_eq!(kind_of(category(some(), Some(true), some())), None);
    assert_eq!(kind_of(category(empty(), Some(true), empty())), None);
    assert_eq!(kind_of(category(None, None, None)), Some(ConfigErrorKind::NoContent));
    assert_eq!(kind_of(category(None, Some(false), None)), Some(ConfigErrorKind::DynamicDisabled));
    assert_eq!(kind_of(category(None, Some(false), some())), Some(ConfigErrorKind::DynamicDisabled));
    assert_eq!(
        kind_of(category(None, Some(true), None)),
        Some(ConfigErrorKind::MissingDefaultStructure)
    );
    assert_eq!(kind_of(category(empty(), None, None)), Some(ConfigErrorKind::EmptyChildren));
    assert_eq!(kind_of(category(empty(), Some(false), None)), Some(ConfigErrorKind::EmptyChildren));
    assert_eq!(
        kind_of(category(None, Some(true), empty())),
        Some(ConfigErrorKind::EmptyDefaultStructure)
    );
    assert_eq!(kind_of(category(some(), None, some())), Some(ConfigErrorKind::InvalidCategory));
    assert_eq!(kind_of(category(some(), Some(true), None)), Some(ConfigErrorKind::InvalidCategory));
    assert_eq!(kind_of(category(None, None, some())), Some(ConfigErrorKind::InvalidCategory));
}

#[test]
fn item_faults_name_the_item() {
    let c = category(
        Some(items(&[("ok", item("t", "ts")), ("bad", item("", "ts")), ("worse", item("t", ""))])),
        None,
        None,
    );
    let e = c.validate("pages").unwrap_err();
    assert_eq!(e.kind, ConfigErrorKind::EmptyTemplate);
    assert_eq!(e.category, "pages");
    assert_eq!(e.item, "bad");

    let e = item("t", "").validate("pages", "x").unwrap_err();
    assert_eq!(e.kind, ConfigErrorKind::EmptyFileExtension);
    assert_eq!(e.item, "x");
}

#[test]
fn static_children_are_checked_before_the_default_structure() {
    let c = category(
        Some(items(&[("s", item("t", ""))])),
        Some(true),
        Some(items(&[("d", item("", "ts"))])),
    );
    let e = c.validate("features").unwrap_err();
    assert_eq!(e.kind, ConfigErrorKind::EmptyFileExtension);
    assert_eq!(e.item, "s");
}

#[test]
fn project_metadata_is_checked_first() {
    let bad = vec![("x".to_string(), category(None, None, None))];
    assert_eq!(project("", bad.clone()).validate().unwrap_err().kind, ConfigErrorKind::EmptyProjectName);
    let mut p = project("p", bad);
    p.project.version = String::new();
    assert_eq!(p.validate().unwrap_err().kind, ConfigErrorKind::EmptyProjectVersion);
    assert_eq!(
        project("p", Vec::new()).validate().unwrap_err().kind,
        ConfigErrorKind::EmptyStructure
    );
}

#[test]
fn the_first_faulty_category_is_reported() {
    let p = project(
        "p",
        vec![
            ("good".to_string(), category(Some(items(&[("a", item("t", "ts"))])), None, None)),
            ("first".to_string(), category(None, None, None)),
            ("second".to_string(), category(None, Some(true), None)),
        ],
    );
    let e = p.validate().unwrap_err();
    assert_eq!(e.kind, ConfigErrorKind::NoContent);
    assert_eq!(e.category, "first");
    assert_eq!(e.item, "");
}

#[test]
fn getters_follow_the_stored_order() {
    let p = project(
        "p",
        vec![
            ("b".to_string(), category(Some(items(&[("y", item("t", "ts")), ("x", item("u", "js"))])), None, None)),
            ("a".to_string(), category(None, Some(true), Some(items(&[("z", item("t", "ts"))])))),
        ],
    );
    assert_eq!(p.get_categories(), vec!["b", "a"]);
    let b = p.get_category("b").unwrap();
    assert_eq!(b.get_item_names(), vec!["y", "x"]);
    assert_eq!(b.get_item("x").unwrap().template, "u");
    assert!(b.get_item("z").is_none());
    assert!(!b.supports_dynamic_children());
    let a = p.get_category("a").unwrap();
    assert!(a.get_item_names().is_empty());
    assert!(a.supports_dynamic_children());
    assert_eq!(a.get_default_structure().unwrap().len(), 1);
    assert!(p.get_category("c").is_none());
}

#[test]
fn config_error_messages_name_category_and_item() {
    let e = item("", "ts").validate("pages", "dashboard").unwrap_err();
    assert_eq!(e.message(), "Item 'dashboard' in category 'pages' has empty template path");
    let e = category(None, None, None).validate("core").unwrap_err();
    assert_eq!(e.message(), "Category 'core' must have either children or dynamic support");
    let e = project("", Vec::new()).validate().unwrap_err();
    assert_eq!(e.message(), "Project name cannot be empty");
}

#[test]
fn duplicate_names_are_refused() {
    let p = project(
        "p",
        vec![
            ("pages".to_string(), category(Some(items(&[("a", item("t", "ts"))])), None, None)),
            ("pages".to_string(), category(Some(items(&[("b", item("t", "ts"))])), None, None)),
        ],
    );
    let e = p.validate().unwrap_err();
    assert_eq!(e.kind, ConfigErrorKind::DuplicateCategory);
    assert_eq!(e.category, "pages");
    assert_eq!(e.message(), "Category 'pages' is defined more than once");

    let c = category(
        None,
        Some(true),
        Some(items(&[("hooks", item("t", "ts")), ("hooks", item("u", "ts"))])),
    );
    let e = c.validate("modules").unwrap_err();
    assert_eq!(e.kind, ConfigErrorKind::DuplicateItem);
    assert_eq!(e.item, "hooks");
    assert_eq!(e.message(), "Item 'hooks' in category 'modules' is defined more than once");
}

#[test]
fn the_same_item_name_in_children_and_defaults_is_allowed() {
    let c = category(
        Some(items(&[("components", item("t", "ts"))])),
        Some(true),
        Some(items(&[("components", item("u", "tsx"))])),
    );
    assert!(c.validate("features").is_ok());
}

#[test]
fn empty_default_structure_message() {
    let e = category(None, Some(true), Some(Vec::new())).validate("modules").unwrap_err();
    assert_eq!(
        e.message(),
        "Category 'modules' allows dynamic children but has empty default structure"
    );
}

#[test]
fn valid_configurations_list_distinct_names() {
    let p = project(
        "p",
        vec![
            ("b".to_string(), category(Some(items(&[("y", item("t", "ts")), ("x", item("u", "js"))])), None, None)),
            ("a".to_string(), category(None, Some(true), Some(items(&[("z", item("t", "ts"))])))),
        ],
    );
    assert!(p.validate().is_ok());
    let names = p.get_categories();
    assert_eq!(names, vec!["b", "a"]);
    assert_eq!(p.get_category("b").unwrap().get_item_names(), vec!["y", "x"]);
}
