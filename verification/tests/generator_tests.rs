use automation_core::catalog::BlockArgument;
use automation_core::catalog::BlockDefinition;
use automation_core::catalog::BlockStore;
use automation_core::generator::CodeGenerator;
use automation_core::generator::CompileError;
use automation_core::json::JsonValue;

fn gen_jstr(s: &str) -> JsonValue {
    JsonValue::Str(s.to_string())
}

fn gen_jobj(entries: Vec<(&str, JsonValue)>) -> JsonValue {
    JsonValue::Obj(entries.into_iter().map(|(k, v)| (k.to_string(), v)).collect())
}

fn gen_jarr(items: Vec<JsonValue>) -> JsonValue {
    JsonValue::Arr(items)
}

fn gen_block_def(block_type: &str, params: Vec<&str>, template: Option<&str>) -> BlockDefinition {
    BlockDefinition {
        block_type: block_type.to_string(),
        message0: String::new(),
        args0: Some(
            params
                .into_iter()
                .map(|name| BlockArgument {
                    arg_type: "input_value".to_string(),
                    name: name.to_string(),
                    check: None,
                    options: None,
                    default: None,
                })
                .collect(),
        ),
        message1: None,
        args1: None,
        output: None,
        previous_statement: None,
        next_statement: None,
        colour: 0,
        tooltip: String::new(),
        help_url: None,
        extensions: None,
        mutator: None,
        category: None,
        id: None,
        created: None,
        modified: None,
        rhai_template: template.map(|t| t.to_string()),
    }
}

fn gen_and_or_node(op: &str) -> JsonValue {
    gen_jobj(vec![
        ("type", gen_jstr("AND_OR")),
        ("fields", gen_jobj(vec![("OP", gen_jobj(vec![("value", gen_jstr(op))]))])),
    ])
}

#[test]
fn test_empty_workspace_generates_empty_script() {
    let generator = CodeGenerator::new(BlockStore::new());
    let workspace = gen_jobj(vec![("blocks", gen_jarr(vec![]))]);
    let result = generator.generate_code(&workspace).unwrap();
    assert_eq!(result, "");
}

#[test]
fn test_single_node_renders_template() {
    let mut store = BlockStore::new();
    store.create_or_update(gen_block_def("AND_OR", vec!["OP"], Some("{{OP}};")));
    let generator = CodeGenerator::new(store);
    let workspace = gen_jobj(vec![("blocks", gen_jarr(vec![gen_and_or_node("AND")]))]);
    let result = generator.generate_code(&workspace).unwrap();
    assert_eq!(result, "AND;");
}

#[test]
fn test_value_and_statement_inputs_render() {
    let mut store = BlockStore::new();
    store.create_or_update(gen_block_def("AND_OR", vec!["OP"], Some("{{OP}}")));
    store.create_or_update(gen_block_def(
        "IF",
        vec!["IF0", "DO0"],
        Some("if {{IF0}} { {{DO0}} }"),
    ));
    let generator = CodeGenerator::new(store);
    let root = gen_jobj(vec![
        ("type", gen_jstr("IF")),
        ("inputs", gen_jobj(vec![(
            "IF0",
            gen_jobj(vec![("block", gen_and_or_node("AND"))]),
        )])),
        ("statements", gen_jobj(vec![(
            "DO0",
            gen_jobj(vec![("block", gen_and_or_node("OR"))]),
        )])),
    ]);
    let workspace = gen_jobj(vec![("blocks", gen_jarr(vec![root]))]);
    let result = generator.generate_code(&workspace).unwrap();
    assert_eq!(result, "if AND { OR }");
}

#[test]
fn test_generate_twice_is_byte_identical() {
    let mut store = BlockStore::new();
    store.create_or_update(gen_block_def("AND_OR", vec!["OP"], Some("{{OP}};")));
    let generator = CodeGenerator::new(store);
    let workspace = gen_jobj(vec![("blocks", gen_jarr(vec![gen_and_or_node("AND")]))]);
    let first = generator.generate_code(&workspace).unwrap();
    let second = generator.generate_code(&workspace).unwrap();
    assert_eq!(first, second);
}

#[test]
fn test_generate_unmoved_by_prior_calls() {
    let mut store = BlockStore::new();
    store.create_or_update(gen_block_def("AND_OR", vec!["OP"], Some("{{OP}};")));
    let generator = CodeGenerator::new(store);
    let workspace = gen_jobj(vec![("blocks", gen_jarr(vec![gen_and_or_node("AND")]))]);
    let first = generator.generate_code(&workspace).unwrap();
    let other = gen_jobj(vec![("blocks", gen_jarr(vec![gen_and_or_node("OR")]))]);
    let _ = generator.generate_code(&other);
    let _ = generator.generate_code(&gen_jobj(vec![]));
    let again = generator.generate_code(&workspace).unwrap();
    assert_eq!(first, again);
}

#[test]
fn test_unknown_block_type_fails() {
    let generator = CodeGenerator::new(BlockStore::new());
    let node = gen_jobj(vec![("type", gen_jstr("mystery"))]);
    let workspace = gen_jobj(vec![("blocks", gen_jarr(vec![node]))]);
    let err = generator.generate_code(&workspace).unwrap_err();
    assert!(matches!(err, CompileError::UnknownBlockType(_)));
    assert_eq!(err.message(), "Block definition not found for type: mystery");
}

#[test]
fn test_missing_template_fails() {
    let mut store = BlockStore::new();
    store.create_or_update(gen_block_def("AND_OR", vec!["OP"], None));
    let generator = CodeGenerator::new(store);
    let workspace = gen_jobj(vec![("blocks", gen_jarr(vec![gen_and_or_node("AND")]))]);
    let err = generator.generate_code(&workspace).unwrap_err();
    assert!(matches!(err, CompileError::MissingTemplate(_)));
    assert_eq!(err.message(), "No Rhai template found for block type: AND_OR");
}

#[test]
fn test_malformed_input_entry_fails() {
    let mut store = BlockStore::new();
    store.create_or_update(gen_block_def("AND_OR", vec!["OP"], Some("{{OP}};")));
    let generator = CodeGenerator::new(store);
    let root = gen_jobj(vec![
        ("type", gen_jstr("AND_OR")),
        ("inputs", gen_jobj(vec![("A", gen_jstr("not a block"))])),
    ]);
    let workspace = gen_jobj(vec![("blocks", gen_jarr(vec![root]))]);
    let err = generator.generate_code(&workspace).unwrap_err();
    assert!(matches!(err, CompileError::StructuralError(_)));
    assert_eq!(err.message(), "Invalid input value for key A");
}

#[test]
fn test_workspace_without_blocks_fails() {
    let generator = CodeGenerator::new(BlockStore::new());
    let workspace = gen_jobj(vec![("nodes", gen_jarr(vec![]))]);
    let err = generator.generate_code(&workspace).unwrap_err();
    assert!(matches!(err, CompileError::StructuralError(_)));
    assert_eq!(err.message(), "No blocks found in workspace");
}

#[test]
fn test_nested_workspace_shape_is_read() {
    let mut store = BlockStore::new();
    store.create_or_update(gen_block_def("AND_OR", vec!["OP"], Some("{{OP}};")));
    let generator = CodeGenerator::new(store);
    let inner = gen_jobj(vec![("blocks", gen_jarr(vec![gen_and_or_node("OR")]))]);
    let workspace = gen_jobj(vec![("blocks", gen_jobj(vec![("blocks", inner)]))]);
    let result = generator.generate_code(&workspace).unwrap();
    assert_eq!(result, "OR;");
}

#[test]
fn test_unset_declared_params_render_empty() {
    let mut store = BlockStore::new();
    store.create_or_update(gen_block_def("AND_OR", vec!["OP", "EXTRA"], Some("{{OP}}[{{EXTRA}}]")));
    let generator = CodeGenerator::new(store);
    let workspace = gen_jobj(vec![("blocks", gen_jarr(vec![gen_and_or_node("AND")]))]);
    let result = generator.generate_code(&workspace).unwrap();
    assert_eq!(result, "AND[]");
}

#[test]
fn test_next_sibling_binds_under_reserved_key() {
    // Splicing the `next` chain is the template's business: it is only
    // rendered where the template names NEXT.
    let mut store = BlockStore::new();
    // NEXT is declared so the tail of the chain renders it as empty.
    store.create_or_update(gen_block_def("STEP", vec!["OP", "NEXT"], Some("{{OP}};{{NEXT}}")));
    let generator = CodeGenerator::new(store);
    let second = gen_jobj(vec![
        ("type", gen_jstr("STEP")),
        ("fields", gen_jobj(vec![("OP", gen_jobj(vec![("value", gen_jstr("B"))]))])),
    ]);
    let first = gen_jobj(vec![
        ("type", gen_jstr("STEP")),
        ("fields", gen_jobj(vec![("OP", gen_jobj(vec![("value", gen_jstr("A"))]))])),
        ("next", gen_jobj(vec![("block", second)])),
    ]);
    let workspace = gen_jobj(vec![("blocks", gen_jarr(vec![first]))]);
    let result = generator.generate_code(&workspace).unwrap();
    assert_eq!(result, "A;B;");
}

#[test]
fn test_mutation_binds_under_prefix() {
    let mut store = BlockStore::new();
    store.create_or_update(gen_block_def("M", vec![], Some("n={{mutation_items}}")));
    let generator = CodeGenerator::new(store);
    let root = gen_jobj(vec![
        ("type", gen_jstr("M")),
        ("mutation", gen_jobj(vec![("items", JsonValue::Int(3))])),
    ]);
    let workspace = gen_jobj(vec![("blocks", gen_jarr(vec![root]))]);
    let result = generator.generate_code(&workspace).unwrap();
    assert_eq!(result, "n=3");
}

#[test]
fn test_deep_nesting_is_cut_off() {
    let mut store = BlockStore::new();
    store.create_or_update(gen_block_def("STEP", vec![], Some("x{{NEXT}}")));
    let generator = CodeGenerator::new(store);
    let mut node = gen_jobj(vec![("type", gen_jstr("STEP"))]);
    for _ in 0..80 {
        node = gen_jobj(vec![
            ("type", gen_jstr("STEP")),
            ("next", gen_jobj(vec![("block", node)])),
        ]);
    }
    let workspace = gen_jobj(vec![("blocks", gen_jarr(vec![node]))]);
    let err = generator.generate_code(&workspace).unwrap_err();
    assert!(matches!(err, CompileError::CycleDetected));
    assert_eq!(err.message(), "Maximum block nesting depth exceeded");
}

#[test]
fn test_controls_if_else_flag() {
    let mut store = BlockStore::new();
    store.create_or_update(gen_block_def("AND_OR", vec!["OP"], Some("{{OP}}")));
    store.create_or_update(gen_block_def(
        "controls_if",
        vec!["IF0", "DO0"],
        Some("if {{IF0}} {\n    {{DO0}}\n}{{#if hasElse}}\nelse {\n    {{ELSE}}\n}{{/if}}"),
    ));
    let generator = CodeGenerator::new(store);

    let basic_if = gen_jobj(vec![
        ("type", gen_jstr("controls_if")),
        ("inputs", gen_jobj(vec![(
            "IF0",
            gen_jobj(vec![("block", gen_and_or_node("AND"))]),
        )])),
        ("statements", gen_jobj(vec![(
            "DO0",
            gen_jobj(vec![("block", gen_and_or_node("OR"))]),
        )])),
    ]);
    let workspace = gen_jobj(vec![("blocks", gen_jarr(vec![basic_if]))]);
    let script = generator.generate_code(&workspace).unwrap();
    assert!(script.contains("if AND {"));
    assert!(script.contains("    OR"));
    assert!(!script.contains("else {"));

    let if_with_else = gen_jobj(vec![
        ("type", gen_jstr("controls_if")),
        ("inputs", gen_jobj(vec![(
            "IF0",
            gen_jobj(vec![("block", gen_and_or_node("AND"))]),
        )])),
        ("statements", gen_jobj(vec![
            ("DO0", gen_jobj(vec![("block", gen_and_or_node("OR"))])),
            ("ELSE", gen_jobj(vec![("block", gen_and_or_node("AND"))])),
        ])),
    ]);
    let workspace = gen_jobj(vec![("blocks", gen_jarr(vec![if_with_else]))]);
    let script = generator.generate_code(&workspace).unwrap();
    assert!(script.contains("if AND {"));
    assert!(script.contains("    OR"));
    assert!(script.contains("else {"));
    assert!(script.contains("    AND"));
}

#[test]
fn test_switch_helper_writes_tag() {
    let mut store = BlockStore::new();
    store.create_or_update(gen_block_def("SW", vec!["OP"], Some("{{switch OP}}")));
    let generator = CodeGenerator::new(store);
    let node = gen_jobj(vec![
        ("type", gen_jstr("SW")),
        ("fields", gen_jobj(vec![("OP", gen_jobj(vec![("value", gen_jstr("AND"))]))])),
    ]);
    let workspace = gen_jobj(vec![("blocks", gen_jarr(vec![node]))]);
    let result = generator.generate_code(&workspace).unwrap();
    assert_eq!(result, "switch_\"AND\"");
}

#[test]
fn test_bad_template_reports_render_error() {
    let mut store = BlockStore::new();
    store.create_or_update(gen_block_def("B", vec![], Some("{{undeclared}}")));
    let generator = CodeGenerator::new(store);
    let node = gen_jobj(vec![("type", gen_jstr("B"))]);
    let workspace = gen_jobj(vec![("blocks", gen_jarr(vec![node]))]);
    let err = generator.generate_code(&workspace).unwrap_err();
    assert!(matches!(err, CompileError::TemplateRenderError(_, _)));
    assert!(err.message().starts_with("Template rendering error: "));
}

#[test]
fn test_only_first_root_is_compiled() {
    let mut store = BlockStore::new();
    store.create_or_update(gen_block_def("AND_OR", vec!["OP"], Some("{{OP}};")));
    let generator = CodeGenerator::new(store);
    let workspace = gen_jobj(vec![(
        "blocks",
        gen_jarr(vec![gen_and_or_node("AND"), gen_and_or_node("OR")]),
    )]);
    let result = generator.generate_code(&workspace).unwrap();
    assert_eq!(result, "AND;");
}

#[test]
fn test_builtin_template_is_shadowed_by_custom() {
    let mut store = BlockStore::new();
    store.register_builtin_template("AND_OR".to_string(), "builtin".to_string());
    let generator = CodeGenerator::new(store);
    let workspace = gen_jobj(vec![("blocks", gen_jarr(vec![gen_and_or_node("AND")]))]);
    assert_eq!(generator.generate_code(&workspace).unwrap(), "builtin");

    let mut store2 = BlockStore::new();
    store2.register_builtin_template("AND_OR".to_string(), "builtin".to_string());
    store2.create_or_update(gen_block_def("AND_OR", vec!["OP"], Some("{{OP}};")));
    let generator2 = CodeGenerator::new(store2);
    assert_eq!(generator2.generate_code(&workspace).unwrap(), "AND;");
}
