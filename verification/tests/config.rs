use rbw_agent::config::{
    default_lock_timeout, default_pinentry, default_sync_interval, device_id, Config, ConfigError,
    SshAgentConfirmation,
};
use rbw_agent::db::{account, config_email};
use rbw_agent::error::Failure;

/// The configuration of a file, as far as the SSH agent is concerned.
fn parsed(json: &str) -> Config {
    let value: serde_json::Value = serde_json::from_str(json).unwrap();
    let confirmation = match value.get("ssh_agent_confirmation").and_then(|v| v.as_str()) {
        None => SshAgentConfirmation::default(),
        Some("always") => SshAgentConfirmation::Always,
        Some("never") => SshAgentConfirmation::Never,
        Some(other) => panic!("{}", other),
    };
    Config {
        ssh_agent_confirmation: confirmation,
        ssh_agent_pinentry: value
            .get("ssh_agent_pinentry")
            .and_then(|v| v.as_str())
            .map(|s| s.to_string()),
        ..Config::default()
    }
}

fn with_base_url(url: &str) -> Config {
    Config { base_url: Some(url.to_string()), ..Config::new() }
}

#[test]
fn ssh_agent_confirmation_defaults_to_always() {
    let config: Config = parsed("{}");
    assert_eq!(config.ssh_agent_confirmation, SshAgentConfirmation::Always);
}

#[test]
fn ssh_agent_confirmation_deserializes_never() {
    let config: Config = parsed(r#"{"ssh_agent_confirmation":"never"}"#);
    assert_eq!(config.ssh_agent_confirmation, SshAgentConfirmation::Never);
    assert_eq!(config.ssh_agent_pinentry, None);
}

#[test]
fn new_configuration_has_the_defaults() {
    let config = Config::new();
    assert_eq!(config.email, None);
    assert_eq!(config.sso_id, None);
    assert_eq!(config.base_url, None);
    assert_eq!(config.lock_timeout, 3600);
    assert_eq!(config.sync_interval, 3600);
    assert_eq!(config.pinentry, "pinentry");
    assert_eq!(config.client_cert_path(), None);
    assert_eq!(config.device_id, None);
    assert_eq!(default_lock_timeout(), 3600);
    assert_eq!(default_sync_interval(), 3600);
    assert_eq!(default_pinentry(), "pinentry");
}

#[test]
fn lock_timeout_of_zero_becomes_the_default() {
    let zero = Config { lock_timeout: 0, sync_interval: 7, ..Config::new() };
    let (config, warned) = Config::load(zero);
    assert_eq!(config.lock_timeout, 3600);
    assert_eq!(config.sync_interval, 7);
    assert!(warned);

    let (config, warned) = Config::load(Config { lock_timeout: 5, ..Config::new() });
    assert_eq!(config.lock_timeout, 5);
    assert!(!warned);
}

#[test]
fn configuration_without_email_is_invalid() {
    let mut config = Config::new();
    assert_eq!(Config::validate::<u8>(Ok(Config::new())), Err(ConfigError::MissingEmail));
    assert!(matches!(account(&config), Err(Failure::MissingEmail)));
    assert!(matches!(config_email(&config), Err(Failure::MissingEmail)));
    config.email = Some("a@example.com".to_string());
    let named = Config { email: config.email.clone(), ..Config::new() };
    assert_eq!(Config::validate::<u8>(Ok(named)), Ok(()));
    let empty = Config { email: Some(String::new()), ..Config::new() };
    assert_eq!(Config::validate::<u8>(Ok(empty)), Ok(()));
    assert_eq!(Config::validate(Err(7)), Err(ConfigError::Load(7)));
    assert_eq!(config_email(&config).unwrap(), "a@example.com");
    assert_eq!(
        account(&config).unwrap(),
        ("default".to_string(), "a@example.com".to_string())
    );
}

#[test]
fn saved_settings_are_loaded_but_for_the_device_id() {
    let config = Config {
        email: Some("a@example.com".to_string()),
        sso_id: Some("sso".to_string()),
        base_url: Some("https://vault.example.com".to_string()),
        lock_timeout: 0,
        sync_interval: 9,
        pinentry: "pinentry-tty".to_string(),
        client_cert_path: Some("/cert".to_string()),
        device_id: Some("old".to_string()),
        ..Config::new()
    };
    let saved = config.save();
    assert_eq!(saved.lock_timeout, 0);
    assert_eq!(saved.device_id, None);
    let (loaded, warned) = Config::load(saved);
    assert!(warned);
    assert_eq!(loaded.lock_timeout, 3600);
    assert_eq!(loaded.email, config.email);
    assert_eq!(loaded.sso_id, config.sso_id);
    assert_eq!(loaded.base_url, config.base_url);
    assert_eq!(loaded.identity_url, None);
    assert_eq!(loaded.sync_interval, 9);
    assert_eq!(loaded.pinentry, "pinentry-tty");
    assert_eq!(loaded.client_cert_path, config.client_cert_path);
    assert_eq!(loaded.device_id, None);
    let (again, warned) = Config::load(loaded.save());
    assert!(!warned);
    assert_eq!(again.lock_timeout, 3600);
    assert_eq!(again.email, config.email);
}

#[test]
fn default_addresses() {
    let config = Config::new();
    assert_eq!(config.base_url(), "https://api.bitwarden.com");
    assert_eq!(config.identity_url(), "https://identity.bitwarden.com");
    assert_eq!(config.ui_url(), "https://vault.bitwarden.com");
    assert_eq!(config.notifications_url(), "https://notifications.bitwarden.com");
    assert_eq!(config.server_name(), "default");
}

#[test]
fn european_addresses() {
    let config = with_base_url("https://api.bitwarden.eu/");
    assert_eq!(config.base_url(), "https://api.bitwarden.eu");
    assert_eq!(config.identity_url(), "https://identity.bitwarden.eu");
    assert_eq!(config.ui_url(), "https://vault.bitwarden.eu");
    assert_eq!(config.notifications_url(), "https://notifications.bitwarden.eu");
    assert_eq!(config.server_name(), "https://api.bitwarden.eu/");
}

#[test]
fn trailing_slashes_are_ignored() {
    for url in ["https://vault.example.com", "https://vault.example.com/", "https://vault.example.com///"] {
        let config = with_base_url(url);
        assert_eq!(config.base_url(), "https://vault.example.com/api");
        assert_eq!(config.identity_url(), "https://vault.example.com/identity");
        assert_eq!(config.ui_url(), "https://vault.example.com");
        assert_eq!(config.notifications_url(), "https://vault.example.com/notifications");
    }
}

#[test]
fn explicit_addresses_come_first() {
    let config = Config {
        base_url: Some("https://vault.example.com".to_string()),
        identity_url: Some("https://id.example.com/".to_string()),
        ui_url: Some("https://ui.example.com/".to_string()),
        notifications_url: Some("https://n.example.com/".to_string()),
        client_cert_path: Some("/tmp/cert.pem".to_string()),
        ..Config::new()
    };
    assert_eq!(config.identity_url(), "https://id.example.com/");
    assert_eq!(config.ui_url(), "https://ui.example.com/");
    assert_eq!(config.notifications_url(), "https://n.example.com/");
    assert_eq!(config.client_cert_path(), Some("/tmp/cert.pem"));
}

#[test]
fn stored_device_id_is_trimmed() {
    let found = device_id(&Config::new(), Some("\u{a0} \tabc d\u{3000}\r\n"));
    assert_eq!(found.id, "abc d");
    assert!(!found.is_new);
}

#[test]
fn old_device_id_is_taken_over() {
    let config = Config { device_id: Some(" old ".to_string()), ..Config::new() };
    let found = device_id(&config, None);
    assert_eq!(found.id, " old ");
    assert!(found.is_new);
}

#[test]
fn random_device_id_is_a_uuid_and_is_read_back() {
    let found = device_id(&Config::new(), None);
    assert!(found.is_new);
    let uuid = uuid::Uuid::parse_str(&found.id).unwrap();
    assert_eq!(uuid.get_version_num(), 4);
    assert_eq!(found.id.len(), 36);
    assert_eq!(uuid.hyphenated().to_string(), found.id);
    assert_ne!(device_id(&Config::new(), None).id, found.id);
    assert_eq!(device_id(&Config::new(), Some(&found.id)).id, found.id);
}
