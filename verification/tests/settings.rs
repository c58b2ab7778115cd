use http_trigger::config::{
    Config, ConfigError, Settings, COMMAND_VAR, DEFAULT_LISTEN_HOST, DEFAULT_LISTEN_PORT,
    LISTEN_ADDR_VAR, SECRET_PATH_VAR,
};
use http_trigger::status::{Reply, Status};

fn read(secret_path: Option<&str>, command: Option<&str>) -> Settings {
    Settings {
        secret_path: secret_path.map(|text| text.to_string()),
        command: command.map(|text| text.to_string()),
    }
}

#[test]
fn variable_names_are_fixed() {
    assert_eq!(SECRET_PATH_VAR, "SECRET_PATH");
    assert_eq!(COMMAND_VAR, "COMMAND");
    assert_eq!(LISTEN_ADDR_VAR, "LISTEN_ADDR");
}

#[test]
fn default_listen_address_is_local_port_8080() {
    assert_eq!(DEFAULT_LISTEN_HOST, [127, 0, 0, 1]);
    assert_eq!(DEFAULT_LISTEN_PORT, 8080);
}

#[test]
fn complete_settings_are_kept_unchanged() {
    let config = Config::from_settings(read(Some("deploy123"), Some("/bin/true"))).unwrap();
    assert_eq!(config.secret_path(), "deploy123");
    assert_eq!(config.command(), "/bin/true");
    assert_eq!(config.into_command(), "/bin/true".to_string());
}

#[test]
fn settings_are_not_trimmed() {
    let config = Config::from_settings(read(Some(" "), Some(" run "))).unwrap();
    assert_eq!(config.secret_path(), " ");
    assert_eq!(config.command(), " run ");
}

#[test]
fn unset_secret_path_is_reported() {
    let error = Config::from_settings(read(None, Some("/bin/true"))).unwrap_err();
    assert_eq!(error, ConfigError::MissingSecretPath);
}

#[test]
fn empty_secret_path_is_reported() {
    let error = Config::from_settings(read(Some(""), Some("/bin/true"))).unwrap_err();
    assert_eq!(error, ConfigError::MissingSecretPath);
}

#[test]
fn unset_command_is_reported() {
    let error = Config::from_settings(read(Some("deploy123"), None)).unwrap_err();
    assert_eq!(error, ConfigError::MissingCommand);
}

#[test]
fn empty_command_is_reported() {
    let error = Config::from_settings(read(Some("deploy123"), Some(""))).unwrap_err();
    assert_eq!(error, ConfigError::MissingCommand);
}

#[test]
fn secret_path_is_looked_at_first() {
    assert_eq!(
        Config::from_settings(read(None, None)).unwrap_err(),
        ConfigError::MissingSecretPath
    );
    assert_eq!(
        Config::from_settings(read(Some(""), Some(""))).unwrap_err(),
        ConfigError::MissingSecretPath
    );
    assert_eq!(
        Config::from_settings(read(None, Some(""))).unwrap_err(),
        ConfigError::MissingSecretPath
    );
}

#[test]
fn config_authorizes_the_secret_path_only() {
    let config = Config::from_settings(read(Some("deploy123"), Some("/bin/true"))).unwrap();
    assert!(config.authorizes("/deploy123"));
    assert!(config.authorizes("deploy123"));
    assert!(!config.authorizes("//deploy123"));
    assert!(!config.authorizes("/deploy123/"));
    assert!(!config.authorizes("/Deploy123"));
    assert!(!config.authorizes("/"));
    assert!(!config.authorizes(""));
    assert!(!config.authorizes("/bin/true"));
}

#[test]
fn status_codes_are_200_404_and_500() {
    assert_eq!(Status::Success.code(), 200);
    assert_eq!(Status::NotFound.code(), 404);
    assert_eq!(Status::InternalServerError.code(), 500);
}

#[test]
fn empty_reply_keeps_the_status_and_has_no_body() {
    for status in [Status::Success, Status::NotFound, Status::InternalServerError] {
        let reply = Reply::empty(status);
        assert_eq!(reply.status, status);
        assert_eq!(reply.body, Vec::<u8>::new());
    }
}
