use ghost::health_monitor::config_builder::{ConfBuilder, ConfigError, GhostConfig};
use ghost::health_monitor::ServiceType;
use ghost::status_checker::config_builder::ConfBuilder as ServiceListBuilder;

const CHECKER_TOML: &str = r#"
room-id = "!hFekksusgjPusUvBbO:example.org"
synapse = "https://matrix.example.org"
nextcloud = "https://cloud.example.org"
forgejo = "https://git.example.org"
portainer = "https://portainer.example.org"
keycloak = "https://sso.example.org"
bitwarden = "https://vault.example.org"
wordpress = "https://blog.example.org"

[notifications]
gotosocial_token = "SECRET-REDACTED"
refresh_interval = 2
"#;

fn parse(content: &str) -> GhostConfig {
    match ConfBuilder::new(None).build(content) {
        (config, None) => config,
        (_, Some(ConfigError::Parse(e))) => panic!("unexpected parse error: {}", e),
    }
}

#[test]
fn config_builder_read_config_correctly() {
    let config = parse(CHECKER_TOML);

    assert_eq!(7, config.services.len(), "Expected more or less services in config file!");
    for service in config.services {
        assert!(!service.get_url().is_empty())
    }
}

#[test]
fn read_config_correctly() {
    let builder = ServiceListBuilder::new(None);
    let (config, error) = builder.build(CHECKER_TOML);
    assert!(error.is_none());

    assert_eq!(7, config.len(), "Expected more or less services in config file!");
    for service in config {
        assert!(!service.get_url().is_empty())
    }
}

#[test]
fn builder_path_defaults_to_checker_toml() {
    assert_eq!(ConfBuilder::new(None).file_path(), "checker.toml");
    assert_eq!(ConfBuilder::new(Some("/etc/ghost.toml".to_string())).file_path(), "/etc/ghost.toml");
    assert_eq!(ServiceListBuilder::new(None).file_path(), "checker.toml");
}

#[test]
fn services_come_in_declaration_order_with_their_urls() {
    let config = parse(CHECKER_TOML);
    let types: Vec<ServiceType> = config.services.iter().map(|s| *s.get_type()).collect();
    assert_eq!(
        types,
        vec![
            ServiceType::Synapse,
            ServiceType::Nextcloud,
            ServiceType::Forgejo,
            ServiceType::Portainer,
            ServiceType::Keycloak,
            ServiceType::Bitwarden,
            ServiceType::Wordpress,
        ]
    );
    assert_eq!(config.services[0].get_url(), "https://matrix.example.org");
    assert_eq!(config.services[6].get_url(), "https://blog.example.org");
    assert_eq!(config.room_id.as_deref(), Some("!hFekksusgjPusUvBbO:example.org"));
}

#[test]
fn notification_settings_are_read() {
    let config = parse(CHECKER_TOML);
    assert_eq!(config.gotosocial_token.as_deref(), Some("SECRET-REDACTED"));
    assert_eq!(config.notification_refresh, Some(2));
}

#[test]
fn notification_settings_of_the_wrong_kind_are_absent() {
    let config = parse("room-id = \"!r\"\n[notifications]\ngotosocial_token = 5\nrefresh_interval = \"often\"\n");
    assert_eq!(config.gotosocial_token, None);
    assert_eq!(config.notification_refresh, None);
    let config = parse("room-id = \"!r\"\nnotifications = \"none\"\n");
    assert_eq!(config.gotosocial_token, None);
    assert_eq!(config.notification_refresh, None);
}

#[test]
fn missing_room_gives_the_empty_config() {
    let config = parse("synapse = \"https://matrix.example.org\"\n");
    assert!(config.services.is_empty());
    assert_eq!(config.room_id, None);
    assert!(config.is_empty());
}

#[test]
fn non_string_values_read_as_empty() {
    let config = parse("room-id = 12\ngotosocial = true\n");
    assert_eq!(config.room_id.as_deref(), Some(""));
    assert_eq!(config.services.len(), 1);
    assert_eq!(*config.services[0].get_type(), ServiceType::Gotosocial);
    assert_eq!(config.services[0].get_url(), "");
}

#[test]
fn invalid_toml_is_a_parse_error() {
    let (config, error) = ConfBuilder::new(None).build("room-id = ");
    assert!(matches!(error, Some(ConfigError::Parse(_))));
    assert!(config.is_empty());
    assert!(config.services.is_empty());
    assert_eq!(config.room_id, None);
    assert_eq!(config.gotosocial_token, None);
    assert_eq!(config.notification_refresh, None);
    let (services, error) = ServiceListBuilder::new(None).build("[[[");
    assert!(error.is_some());
    assert!(services.is_empty());
}

#[test]
fn empty_config_is_empty() {
    let config = GhostConfig::empty();
    assert!(config.is_empty());
    assert!(config.services.is_empty());
    assert_eq!(config.gotosocial_token, None);
    assert_eq!(config.notification_refresh, None);
    let no_services = parse("room-id = \"!r\"\n");
    assert!(no_services.is_empty());
    assert!(!parse(CHECKER_TOML).is_empty());
}

#[test]
fn config_keys_are_lower_case_names() {
    assert_eq!(ServiceType::Synapse.to_string(), "Synapse");
    assert_eq!(ServiceType::Gotosocial.to_string(), "Gotosocial");
    assert_eq!(ServiceType::Wordpress.config_key_string(), "wordpress");
    assert_eq!(ServiceType::Nextcloud.config_key_string(), "nextcloud");
    assert_eq!(ServiceType::all().len(), 8);
}

#[test]
fn ascii_lowercase_maps_only_capitals() {
    assert_eq!(ghost::text::ascii_lowercase("GoToSocial-2.0 Ü"), "gotosocial-2.0 Ü");
    assert_eq!(ghost::text::ascii_lowercase(""), "");
}
