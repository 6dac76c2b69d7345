use automation_core::template::TemplateManager;

#[test]
fn test_template_validation() {
    let manager = TemplateManager::new();

    // Valid template
    assert!(manager.validate_template("let x = {{value}};").is_ok());

    // Invalid template - no variables
    assert!(manager.validate_template("let x = 42;").is_err());
}

#[test]
fn test_template_validation_message() {
    let manager = TemplateManager::new();
    let err = manager.validate_template("plain text").unwrap_err();
    assert_eq!(err, "Template must contain at least one variable");
}

#[test]
fn test_template_validation_needs_both_markers() {
    let manager = TemplateManager::new();
    assert!(manager.validate_template("let x = {{value").is_err());
    assert!(manager.validate_template("let x = value}}").is_err());
    assert!(manager.validate_template("{{}}").is_ok());
}

#[test]
fn test_template_registration_round_trip() {
    let mut manager = TemplateManager::new();
    assert!(manager.get_template("controls_if").is_none());
    manager.register_template("controls_if".to_string(), "if {{IF0}} {}".to_string());
    assert_eq!(manager.get_template("controls_if").unwrap(), "if {{IF0}} {}");
    manager.register_template("controls_if".to_string(), "{{DO0}}".to_string());
    assert_eq!(manager.get_template("controls_if").unwrap(), "{{DO0}}");
    assert!(manager.get_template("unknown").is_none());
}
