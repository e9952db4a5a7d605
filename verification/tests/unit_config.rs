use desktop_mcp::config::{
    default_network_interface, default_network_port, default_network_protocol, default_socket_chmod,
    default_socket_path, default_true, Config, NetworkConfig, PrivacyConfig, SecurityConfig, SecurityMode,
    ServerConfig, TransportMode,
};

#[test]
fn test_default_values() {
    assert_eq!(default_socket_path(), "/tmp/desktop-mcp.sock");
    assert_eq!(default_socket_chmod(), "0600");
    assert_eq!(default_network_interface(), "127.0.0.1");
    assert_eq!(default_network_port(), 8443);
    assert_eq!(default_network_protocol(), "sse");
    assert!(default_true());
    let privacy = PrivacyConfig::default();
    assert!(privacy.isolate_window_capture);
    assert!(privacy.mask_sensitive_text_fields);
    assert_eq!(SecurityMode::default(), SecurityMode::Allowlist);
}

#[test]
fn test_allowlist_config_policy() {
    let config = Config {
        server: ServerConfig { transport: TransportMode::Stdio, unix_socket: None, network: None },
        security: SecurityConfig {
            mode: SecurityMode::Allowlist,
            enforce_focus_lock: true,
            allowed_apps: vec!["com.apple.calculator".to_string(), "com.microsoft.Word".to_string()],
            blocked_apps: vec!["com.apple.Terminal".to_string()],
        },
        privacy: PrivacyConfig { isolate_window_capture: true, mask_sensitive_text_fields: true },
    };
    assert_eq!(config.server.transport, TransportMode::Stdio);
    assert_eq!(config.security.mode, SecurityMode::Allowlist);
    assert!(config.privacy.isolate_window_capture);
    assert!(config.security.is_allowed("com.apple.calculator"));
    assert!(config.security.is_allowed("com.microsoft.Word"));
    assert!(!config.security.is_allowed("com.apple.Terminal"));
    assert!(!config.security.is_allowed("com.random.unlisted"));
}

#[test]
fn test_blocklist_network_config_policy() {
    let config = Config {
        server: ServerConfig {
            transport: TransportMode::Network,
            unix_socket: None,
            network: Some(NetworkConfig {
                interface: "192.168.1.100".to_string(),
                port: 9000,
                protocol: default_network_protocol(),
                auth_token: "secret-token-123".to_string(),
                enable_tls: false,
                cert_file: None,
                key_file: None,
            }),
        },
        security: SecurityConfig {
            mode: SecurityMode::Blocklist,
            enforce_focus_lock: true,
            allowed_apps: vec![],
            blocked_apps: vec!["com.apple.Terminal".to_string(), "com.1password.1password".to_string()],
        },
        privacy: PrivacyConfig { isolate_window_capture: false, mask_sensitive_text_fields: true },
    };
    assert_eq!(config.server.transport, TransportMode::Network);
    let net = config.server.network.clone().expect("Network config missing");
    assert_eq!(net.interface, "192.168.1.100");
    assert_eq!(net.port, 9000);
    assert_eq!(net.auth_token, "secret-token-123");
    assert_eq!(config.security.mode, SecurityMode::Blocklist);
    assert!(!config.security.is_allowed("com.apple.Terminal"));
    assert!(config.security.is_allowed("com.apple.calculator"));
}
