use automation_core::bindings::register_ha_api;
use automation_core::engine::EngineError;
use automation_core::engine::ScriptEngine;

#[test]
fn test_timeout() {
    let engine = ScriptEngine::new();
    let infinite_loop = "let x = 0; loop { x += 1; }";
    assert!(engine.run_script(infinite_loop).is_err());
}

#[test]
fn test_memory_limit() {
    let engine = ScriptEngine::new();
    let memory_hog = "let x = []; loop { x.push(42); }";
    assert!(engine.run_script(memory_hog).is_err());
}

#[test]
fn test_unbounded_loop_is_resource_limit() {
    let engine = ScriptEngine::new();
    let err = engine.run_script("let x=0; loop { x+=1; }").unwrap_err();
    assert!(matches!(err, EngineError::ResourceLimitExceeded(_)));
    assert!(err.message().starts_with("Runtime error: "));
    // The engine stays usable after the abort.
    assert!(engine.run_script("let y = 1 + 1;").is_ok());
}

#[test]
fn test_syntax_error_is_reported() {
    let engine = ScriptEngine::new();
    let err = engine.run_script("let x = ;").unwrap_err();
    assert!(matches!(err, EngineError::SyntaxError(_)));
    assert!(err.message().starts_with("Compilation error: "));
}

#[test]
fn test_compile_accepts_wellformed_script() {
    let engine = ScriptEngine::new();
    assert!(engine.compile("let x = 1; x + 1;").is_ok());
}

#[test]
fn test_compile_rejects_malformed_script() {
    let engine = ScriptEngine::new();
    assert!(engine.compile("let x = ;").is_err());
}

#[test]
fn test_compile_does_not_run() {
    // An unbounded loop parses fine; only running it hits the budget.
    let engine = ScriptEngine::new();
    assert!(engine.compile("let x = 0; loop { x += 1; }").is_ok());
}

#[test]
fn test_run_compiled_script() {
    let engine = ScriptEngine::new();
    let ast = engine.compile("let x = 2 + 3;").unwrap();
    assert!(engine.run(&ast).is_ok());
}

#[test]
fn test_ha_api_registration() {
    let mut engine = rhai::Engine::new();
    register_ha_api(&mut engine);

    // Test get_state
    let result = engine
        .eval::<String>(r#"get_state("light.living_room")"#)
        .unwrap();
    assert_eq!(result, "mock_state");

    // Test set_state
    let result = engine.eval::<()>(r#"set_state("light.living_room", "on")"#);
    assert!(result.is_ok());

    // Test call_service
    let result = engine.eval::<()>(r#"call_service("light", "turn_on", "light.living_room")"#);
    assert!(result.is_ok());

    // Test get_attributes
    let result = engine
        .eval::<rhai::Map>(r#"get_attributes("light.living_room")"#)
        .unwrap();
    assert_eq!(result.get("mock_attr").unwrap().to_string(), "mock_value");
}

#[test]
fn test_scripts_reach_host_surface() {
    let engine = ScriptEngine::new();
    assert!(engine.run_script(r#"let s = get_state("light.kitchen"); s"#).is_ok());
}

#[test]
fn test_script_failure_is_not_resource_limit() {
    let engine = ScriptEngine::new();
    let err = engine.run_script("undefined_function_name(1);").unwrap_err();
    assert!(matches!(err, EngineError::ScriptError(_)));
    assert!(err.message().starts_with("Runtime error: "));
}
