use automation_core::automation::AutomationCreate;
use automation_core::automation::AutomationStore;
use automation_core::automation::AutomationUpdate;
use automation_core::automation::StoreError;
use automation_core::catalog::BlockArgument;
use automation_core::catalog::BlockDefinition;
use automation_core::catalog::BlockStore;
use automation_core::json::JsonValue;

fn auto_jstr(s: &str) -> JsonValue {
    JsonValue::Str(s.to_string())
}

fn auto_jobj(entries: Vec<(&str, JsonValue)>) -> JsonValue {
    JsonValue::Obj(entries.into_iter().map(|(k, v)| (k.to_string(), v)).collect())
}

fn auto_jarr(items: Vec<JsonValue>) -> JsonValue {
    JsonValue::Arr(items)
}

fn logic_operation_definition() -> BlockDefinition {
    BlockDefinition {
        block_type: "logic_operation".to_string(),
        message0: "%1 %2 %3".to_string(),
        args0: Some(vec![
            BlockArgument {
                arg_type: "input_value".to_string(),
                name: "A".to_string(),
                check: Some("Boolean".to_string()),
                options: None,
                default: None,
            },
            BlockArgument {
                arg_type: "field_dropdown".to_string(),
                name: "OP".to_string(),
                check: None,
                options: Some(vec![
                    vec!["and".to_string(), "AND".to_string()],
                    vec!["or".to_string(), "OR".to_string()],
                ]),
                default: None,
            },
            BlockArgument {
                arg_type: "input_value".to_string(),
                name: "B".to_string(),
                check: Some("Boolean".to_string()),
                options: None,
                default: None,
            },
        ]),
        message1: None,
        args1: None,
        output: Some("Boolean".to_string()),
        previous_statement: None,
        next_statement: None,
        colour: 0,
        tooltip: String::new(),
        help_url: None,
        extensions: None,
        mutator: None,
        category: None,
        id: None,
        created: None,
        modified: None,
        rhai_template: Some("{{ OP }};".to_string()),
    }
}

fn setup_test_store() -> AutomationStore {
    let mut block_store = BlockStore::new();
    block_store.create_or_update(logic_operation_definition());
    AutomationStore::new(block_store)
}

fn logic_node(op: &str, with_nested_input: bool) -> JsonValue {
    let mut entries = vec![
        ("type", auto_jstr("logic_operation")),
        ("fields", auto_jobj(vec![("OP", auto_jobj(vec![("value", auto_jstr(op))]))])),
    ];
    if with_nested_input {
        let nested = auto_jobj(vec![
            ("type", auto_jstr("logic_operation")),
            ("fields", auto_jobj(vec![("OP", auto_jobj(vec![("value", auto_jstr("OR"))]))])),
        ]);
        entries.push(("inputs", auto_jobj(vec![("A", auto_jobj(vec![("block", nested)]))])));
    }
    auto_jobj(entries)
}

fn simple_workspace(op: &str) -> JsonValue {
    auto_jobj(vec![("blocks", auto_jarr(vec![logic_node(op, false)]))])
}

fn create_request(name: &str, workspace: JsonValue) -> AutomationCreate {
    AutomationCreate {
        name: name.to_string(),
        description: None,
        triggers: vec![],
        workspace,
        conditions: vec![],
    }
}

#[test]
fn test_save_automation_with_valid_workspace() {
    let mut store = setup_test_store();
    let workspace = auto_jobj(vec![("blocks", auto_jarr(vec![logic_node("AND", true)]))]);
    let result = store.create(create_request("Test Automation", workspace));
    assert!(result.is_ok(), "Failed to create automation: {:?}", result.err());
}

#[test]
fn test_save_automation_with_invalid_workspace() {
    let mut store = setup_test_store();
    // A workspace whose blocks member is not an array of nodes.
    let workspace = auto_jobj(vec![(
        "blocks",
        auto_jobj(vec![
            ("invalid", auto_jstr("structure")),
            ("not_an_array", auto_jobj(vec![("type", auto_jstr("logic_operation"))])),
        ]),
    )]);
    let result = store.create(create_request("Test Automation", workspace));
    assert!(result.is_err(), "Expected error but got success");
    let error = result.unwrap_err();
    assert!(
        error.message().contains("No blocks found in workspace"),
        "Unexpected error message: {}",
        error.message()
    );
}

#[test]
fn test_save_automation_with_empty_workspace() {
    let mut store = setup_test_store();
    let workspace = auto_jobj(vec![("blocks", auto_jarr(vec![]))]);
    let result = store.create(create_request("Test Automation", workspace));
    assert!(result.is_ok(), "Failed to create automation with empty workspace");
    let automation = result.unwrap();
    assert!(automation.compilation_error.is_none(), "Unexpected compilation error");
}

#[test]
fn test_script_generation_with_nested_blocks() {
    let mut store = setup_test_store();
    let workspace = auto_jobj(vec![("blocks", auto_jarr(vec![logic_node("AND", true)]))]);
    let result = store.create(create_request("Test Automation", workspace));
    assert!(result.is_ok(), "Failed to create automation with nested blocks");
    let automation = result.unwrap();
    assert!(automation.compilation_error.is_none(), "Unexpected compilation error");
}

#[test]
fn test_update_automation_script() {
    let mut store = setup_test_store();
    let initial = store
        .create(AutomationCreate {
            name: "Update Test".to_string(),
            description: Some("Initial version".to_string()),
            triggers: vec![],
            workspace: simple_workspace("AND"),
            conditions: vec![],
        })
        .unwrap();
    assert_eq!(initial.version, 1);

    let updated = store
        .update(&initial.id, AutomationUpdate {
            name: "Updated Test".to_string(),
            description: Some("Updated version".to_string()),
            enabled: true,
            version: 1,
            triggers: vec![],
            workspace: simple_workspace("OR"),
            conditions: vec![],
        })
        .unwrap()
        .unwrap();
    assert_eq!(updated.version, 2);
    assert_eq!(updated.name, "Updated Test");
    assert!(updated.compilation_error.is_none());
}

#[test]
fn test_invalid_block_type() {
    let mut store = setup_test_store();
    let workspace = auto_jobj(vec![(
        "blocks",
        auto_jarr(vec![auto_jobj(vec![
            ("type", auto_jstr("nonexistent_block_type")),
            ("fields", auto_jobj(vec![])),
        ])]),
    )]);
    let result = store.create(create_request("Invalid Block Test", workspace));
    assert!(result.is_err());
    let error = result.unwrap_err();
    assert!(error.message().contains("Block definition not found"));
}

#[test]
fn test_version_control() {
    let mut store = setup_test_store();
    let initial = store
        .create(create_request("Version Test", simple_workspace("AND")))
        .unwrap();
    assert_eq!(initial.version, 1);

    // Try to update with wrong version
    let result = store.update(&initial.id, AutomationUpdate {
        name: "Version Test".to_string(),
        description: None,
        enabled: true,
        version: 2, // Wrong version
        triggers: vec![],
        workspace: simple_workspace("AND"),
        conditions: vec![],
    });
    assert!(result.is_err());
    assert!(result.unwrap_err().message().contains("Version mismatch"));
}

#[test]
fn test_delete_automation() {
    let mut store = setup_test_store();
    let automation = store
        .create(create_request("Delete Test", simple_workspace("AND")))
        .unwrap();

    let deleted = store.delete(&automation.id);
    assert!(deleted);
    assert!(store.get(&automation.id).is_none());
    assert!(!store.delete(&automation.id));
}

#[test]
fn test_toggle_automation() {
    let mut store = setup_test_store();
    let automation = store
        .create(create_request("Toggle Test", simple_workspace("AND")))
        .unwrap();
    assert!(automation.enabled);

    let toggled = store.toggle(&automation.id, false).unwrap();
    assert!(!toggled.enabled);

    let toggled = store.toggle(&automation.id, true).unwrap();
    assert!(toggled.enabled);
}

#[test]
fn test_invalid_rhai_syntax() {
    let mut block_store = BlockStore::new();
    let mut bad = logic_operation_definition();
    bad.block_type = "invalid_rhai".to_string();
    bad.args0 = Some(vec![]);
    bad.rhai_template = Some("invalid {{ syntax; }}".to_string());
    block_store.create_or_update(bad);
    let mut store = AutomationStore::new(block_store);

    let workspace = auto_jobj(vec![(
        "blocks",
        auto_jarr(vec![auto_jobj(vec![
            ("type", auto_jstr("invalid_rhai")),
            ("fields", auto_jobj(vec![])),
        ])]),
    )]);
    let result = store.create(create_request("Invalid Rhai Test", workspace));
    assert!(result.is_err());
    let error = result.unwrap_err();
    assert!(error.message().contains("Script compilation error"));
}

#[test]
fn test_version_counts_updates() {
    let mut store = setup_test_store();
    let initial = store
        .create(create_request("Counter Test", simple_workspace("AND")))
        .unwrap();
    assert_eq!(initial.version, 1);
    let mut version = initial.version;
    for _ in 0..3 {
        let updated = store
            .update(&initial.id, AutomationUpdate {
                name: "Counter Test".to_string(),
                description: None,
                enabled: true,
                version,
                triggers: vec![],
                workspace: simple_workspace("OR"),
                conditions: vec![],
            })
            .unwrap()
            .unwrap();
        assert_eq!(updated.version, version + 1);
        version = updated.version;
    }
    // After three successful updates the version is 1 + 3.
    assert_eq!(version, 4);
}

#[test]
fn test_version_conflict_leaves_record_unchanged() {
    let mut store = setup_test_store();
    let initial = store
        .create(create_request("Conflict Test", simple_workspace("AND")))
        .unwrap();
    let before = store.get(&initial.id).unwrap();

    let result = store.update(&initial.id, AutomationUpdate {
        name: "Someone else".to_string(),
        description: Some("should not land".to_string()),
        enabled: false,
        version: 7,
        triggers: vec![],
        workspace: simple_workspace("OR"),
        conditions: vec![],
    });
    assert!(matches!(result, Err(StoreError::VersionConflict)));

    let after = store.get(&initial.id).unwrap();
    assert_eq!(before.name, after.name);
    assert_eq!(before.version, after.version);
    assert_eq!(before.enabled, after.enabled);
    assert_eq!(before.updated_at, after.updated_at);
    assert_eq!(before.generated_script, after.generated_script);
    assert_eq!(before.workspace, after.workspace);
}

#[test]
fn test_failed_create_is_not_listed() {
    let mut store = setup_test_store();
    let workspace = auto_jobj(vec![(
        "blocks",
        auto_jarr(vec![auto_jobj(vec![("type", auto_jstr("mystery"))])]),
    )]);
    let result = store.create(create_request("Mystery", workspace));
    assert!(result.is_err());
    assert!(store.list().is_empty());
}

#[test]
fn test_failed_update_keeps_old_record() {
    let mut store = setup_test_store();
    let initial = store
        .create(create_request("Keep Test", simple_workspace("AND")))
        .unwrap();

    let result = store.update(&initial.id, AutomationUpdate {
        name: "Broken".to_string(),
        description: None,
        enabled: true,
        version: 1,
        triggers: vec![],
        workspace: auto_jobj(vec![(
            "blocks",
            auto_jarr(vec![auto_jobj(vec![("type", auto_jstr("mystery"))])]),
        )]),
        conditions: vec![],
    });
    assert!(matches!(result, Err(StoreError::Validation(_))));

    let kept = store.get(&initial.id).unwrap();
    assert_eq!(kept.name, "Keep Test");
    assert_eq!(kept.version, 1);
    assert_eq!(kept.generated_script.as_deref(), Some("AND;"));
}

#[test]
fn test_update_missing_automation_is_none() {
    let mut store = setup_test_store();
    let result = store.update("no-such-id", AutomationUpdate {
        name: "Nobody".to_string(),
        description: None,
        enabled: true,
        version: 1,
        triggers: vec![],
        workspace: simple_workspace("AND"),
        conditions: vec![],
    });
    assert!(matches!(result, Ok(None)));
}

#[test]
fn test_created_record_pairs_script_with_graph() {
    let mut store = setup_test_store();
    let automation = store
        .create(create_request("Pair Test", simple_workspace("AND")))
        .unwrap();
    assert_eq!(automation.generated_script.as_deref(), Some("AND;"));
    let stored = store.get(&automation.id).unwrap();
    assert_eq!(stored.generated_script.as_deref(), Some("AND;"));
}

#[test]
fn test_restore_and_version_limit() {
    let mut store = setup_test_store();
    let restored = automation_core::automation::Automation {
        id: "persisted-one".to_string(),
        name: "Persisted".to_string(),
        description: None,
        enabled: true,
        version: i32::MAX,
        triggers: vec![],
        workspace: simple_workspace("AND"),
        conditions: vec![],
        created_at: 0,
        updated_at: 0,
        compilation_error: None,
        generated_script: Some("AND;".to_string()),
    };
    store.restore(restored);
    let found = store.get("persisted-one").unwrap();
    assert_eq!(found.version, i32::MAX);

    // The version counter cannot grow past its largest value.
    let result = store.update("persisted-one", AutomationUpdate {
        name: "Persisted".to_string(),
        description: None,
        enabled: true,
        version: i32::MAX,
        triggers: vec![],
        workspace: simple_workspace("AND"),
        conditions: vec![],
    });
    assert!(matches!(result, Err(StoreError::VersionLimit)));
    assert_eq!(store.get("persisted-one").unwrap().version, i32::MAX);
}
