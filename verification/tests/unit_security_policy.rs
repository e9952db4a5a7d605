use desktop_mcp::config::{SecurityConfig, SecurityMode};
use desktop_mcp::security::policy::{PolicyEngine, SecurityError};

#[test]
fn test_allowlist_enforcement() {
    let config = SecurityConfig {
        mode: SecurityMode::Allowlist,
        enforce_focus_lock: true,
        allowed_apps: vec![
            "com.apple.calculator".to_string(),
            "com.microsoft.Word".to_string(),
            "org.libreoffice.LibreOffice".to_string(),
        ],
        blocked_apps: vec!["com.apple.Terminal".to_string()],
    };

    let engine = PolicyEngine::new(config);

    assert!(engine.validate_app("com.apple.calculator").is_ok());
    assert!(engine.validate_app("com.microsoft.Word").is_ok());

    // Explicitly blocked
    let err = engine.validate_app("com.apple.Terminal").unwrap_err();
    assert!(matches!(err, SecurityError::BlockedApplication(_)));

    // Not in allowlist
    let err = engine.validate_app("com.google.Chrome").unwrap_err();
    assert!(matches!(err, SecurityError::ApplicationNotAllowed(_)));
}

#[test]
fn test_blocklist_enforcement() {
    let config = SecurityConfig {
        mode: SecurityMode::Blocklist,
        enforce_focus_lock: true,
        allowed_apps: vec![],
        blocked_apps: vec!["com.apple.Terminal".to_string(), "com.1password.1password".to_string()],
    };

    let engine = PolicyEngine::new(config);

    // Unlisted is allowed in blocklist mode
    assert!(engine.validate_app("com.apple.calculator").is_ok());
    assert!(engine.validate_app("com.microsoft.Word").is_ok());

    // Blocked is denied
    assert!(matches!(
        engine.validate_app("com.apple.Terminal").unwrap_err(),
        SecurityError::BlockedApplication(_)
    ));
}

#[test]
fn test_default_security_config_lists() {
    let config = SecurityConfig::default();
    assert_eq!(config.mode, SecurityMode::Allowlist);
    assert!(config.enforce_focus_lock);
    assert_eq!(config.allowed_apps.len(), 17);
    assert_eq!(config.allowed_apps[0], "com.apple.calculator");
    assert_eq!(config.allowed_apps[16], "onlyoffice-desktopeditors");
    assert_eq!(config.blocked_apps.len(), 6);
    assert_eq!(config.blocked_apps[0], "com.apple.Terminal");
    assert_eq!(config.blocked_apps[5], "com.apple.keychainaccess");
    assert!(config.is_allowed("Calculator"));
    assert!(config.is_allowed("TextEdit"));
    assert!(!config.is_allowed("com.apple.Terminal"));
    assert!(!config.is_allowed("com.googlecode.iterm2"));
    assert!(!config.is_allowed("Safari"));
}

#[test]
fn test_matching_ignores_case() {
    let config = SecurityConfig::default();
    assert!(config.is_allowed("COM.APPLE.CALCULATOR"));
    assert!(config.is_allowed("calculator"));
    assert!(!config.is_allowed("COM.APPLE.TERMINAL"));
    let engine = PolicyEngine::new(config);
    assert!(matches!(
        engine.validate_app("Com.Apple.Terminal").unwrap_err(),
        SecurityError::BlockedApplication(_)
    ));
}

#[test]
fn test_entry_contained_in_identifier_matches() {
    let config = SecurityConfig {
        mode: SecurityMode::Allowlist,
        enforce_focus_lock: false,
        allowed_apps: vec!["Word".to_string()],
        blocked_apps: vec!["Terminal".to_string()],
    };
    // "microsoft word" contains "word"
    assert!(config.is_allowed("Microsoft Word"));
    // a blocked entry inside the identifier refuses it even if an allowed entry matches too
    assert!(!config.is_allowed("Word Terminal"));
    // the identifier inside an entry is not enough
    assert!(!config.is_allowed("Wor"));
}

#[test]
fn test_blocked_takes_precedence_over_allowed() {
    let config = SecurityConfig {
        mode: SecurityMode::Allowlist,
        enforce_focus_lock: true,
        allowed_apps: vec!["com.apple.Terminal".to_string()],
        blocked_apps: vec!["com.apple.Terminal".to_string()],
    };
    assert!(!config.is_allowed("com.apple.Terminal"));
    let engine = PolicyEngine::new(config);
    assert!(matches!(
        engine.validate_app("com.apple.Terminal").unwrap_err(),
        SecurityError::BlockedApplication(_)
    ));
}

#[test]
fn test_empty_allowlist_refuses_everything() {
    let config = SecurityConfig {
        mode: SecurityMode::Allowlist,
        enforce_focus_lock: true,
        allowed_apps: vec![],
        blocked_apps: vec![],
    };
    assert!(!config.is_allowed("Calculator"));
    assert!(!config.is_allowed(""));
}

#[test]
fn test_empty_blocked_entry_blocks_everything() {
    let config = SecurityConfig {
        mode: SecurityMode::Blocklist,
        enforce_focus_lock: true,
        allowed_apps: vec![],
        blocked_apps: vec!["".to_string()],
    };
    assert!(!config.is_allowed("Calculator"));
}

#[test]
fn test_is_allowed_agrees_with_validate_app() {
    let config = SecurityConfig::default();
    let engine = PolicyEngine::new(config.clone());
    for app in ["Calculator", "com.apple.Terminal", "Safari", "kcalc", "org.keepassxc.keepassxc", ""] {
        assert_eq!(config.is_allowed(app), engine.validate_app(app).is_ok(), "{}", app);
    }
}

#[test]
fn test_refusal_messages() {
    let engine = PolicyEngine::new(SecurityConfig::default());
    let blocked = engine.validate_app("com.apple.Terminal").unwrap_err();
    assert_eq!(
        blocked.message(),
        "SecurityPolicyViolation: Application 'com.apple.Terminal' is explicitly blocked"
    );
    match &blocked {
        SecurityError::BlockedApplication(a) => assert_eq!(a, "com.apple.Terminal"),
        _ => panic!("wrong variant"),
    }
    let unlisted = engine.validate_app("Safari").unwrap_err();
    assert_eq!(
        unlisted.message(),
        "SecurityPolicyViolation: Application 'Safari' is not in the allowed applications list"
    );
}

#[test]
fn test_get_config_returns_configuration() {
    let engine = PolicyEngine::new(SecurityConfig {
        mode: SecurityMode::Blocklist,
        enforce_focus_lock: false,
        allowed_apps: vec![],
        blocked_apps: vec!["x".to_string()],
    });
    let c = engine.get_config();
    assert_eq!(c.mode, SecurityMode::Blocklist);
    assert!(!c.enforce_focus_lock);
    assert_eq!(c.blocked_apps, vec!["x".to_string()]);
}
