use music_quiz_bot::config::{Config, ConfigError, EnvSnapshot, EnvVar, Environment};
use music_quiz_bot::text::{decimal_text, parse_u64};

fn env(pairs: &[(&str, &str)]) -> EnvSnapshot {
    EnvSnapshot::new(
        pairs
            .iter()
            .map(|(k, v)| (k.to_string(), v.to_string()))
            .collect(),
    )
}

const CREDENTIALS: [(&str, &str); 3] = [
    ("SPOTIFY_CLIENT_ID", "id"),
    ("SPOTIFY_CLIENT_SECRET", "secret"),
    ("DISCORD_TOKEN", "token"),
];

#[test]
fn production_config_needs_no_guild() {
    let mut pairs = vec![("ENVIRONMENT", "Production")];
    pairs.extend_from_slice(&CREDENTIALS);
    let config = Config::from_env(&env(&pairs)).unwrap();
    assert_eq!(config.environment, Environment::Production);
    assert!(!config.is_dev());
    assert_eq!(config.spotify_client_id, "id");
    assert_eq!(config.spotify_client_secret, "secret");
    assert_eq!(config.discord_token, "token");
    assert_eq!(config.discord_testing_guild_id, None);
}

#[test]
fn development_config_reads_the_testing_guild() {
    let mut pairs = vec![("ENVIRONMENT", "DEV"), ("DISCORD_TESTING_GUILD_ID", "1234")];
    pairs.extend_from_slice(&CREDENTIALS);
    let config = Config::from_env(&env(&pairs)).unwrap();
    assert!(config.is_dev());
    assert_eq!(config.discord_testing_guild_id, Some(1234));

    let mut legacy = vec![("ENVIRONMENT", "development"), ("TESTING_GUILD_ID", "+77")];
    legacy.extend_from_slice(&CREDENTIALS);
    let config = Config::from_env(&env(&legacy)).unwrap();
    assert_eq!(config.discord_testing_guild_id, Some(77));
}

#[test]
fn unknown_environment_is_rejected() {
    let mut pairs = vec![("ENVIRONMENT", "Staging")];
    pairs.extend_from_slice(&CREDENTIALS);
    assert_eq!(
        Config::from_env(&env(&pairs)).unwrap_err(),
        ConfigError::InvalidEnvironment("staging".to_string())
    );
}

#[test]
fn missing_variables_are_named() {
    assert_eq!(
        Config::from_env(&env(&[])).unwrap_err(),
        ConfigError::MissingEnvironmentVariable("ENVIRONMENT".to_string())
    );
    let mut pairs = vec![("ENVIRONMENT", "dev")];
    pairs.extend_from_slice(&CREDENTIALS);
    assert_eq!(
        Config::from_env(&env(&pairs)).unwrap_err(),
        ConfigError::MissingEnvironmentVariable(
            "DISCORD_TESTING_GUILD_ID or TESTING_GUILD_ID".to_string()
        )
    );
    let partial = [
        ("ENVIRONMENT", "prod"),
        ("SPOTIFY_CLIENT_ID", "id"),
        ("SPOTIFY_CLIENT_SECRET", "secret"),
    ];
    assert_eq!(
        Config::from_env(&env(&partial)).unwrap_err(),
        ConfigError::MissingEnvironmentVariable("DISCORD_TOKEN".to_string())
    );
}

#[test]
fn unparsable_guild_is_rejected() {
    let mut pairs = vec![("ENVIRONMENT", "dev"), ("DISCORD_TESTING_GUILD_ID", " 12")];
    pairs.extend_from_slice(&CREDENTIALS);
    assert_eq!(
        Config::from_env(&env(&pairs)).unwrap_err(),
        ConfigError::FailedToParse(" 12".to_string())
    );
}

#[test]
fn env_var_keys() {
    assert_eq!(EnvVar::Environment.key(), "ENVIRONMENT");
    assert_eq!(EnvVar::SpotifyClientId.key(), "SPOTIFY_CLIENT_ID");
    assert_eq!(EnvVar::SpotifyClientSecret.key(), "SPOTIFY_CLIENT_SECRET");
    assert_eq!(EnvVar::DiscordToken.key(), "DISCORD_TOKEN");
    assert_eq!(EnvVar::DiscordTestingGuildId.key(), "DISCORD_TESTING_GUILD_ID");
}

#[test]
fn snapshot_lookup() {
    let snapshot = env(&[("A", "1"), ("B", "2")]);
    assert_eq!(snapshot.var("B"), Some("2".to_string()));
    assert_eq!(snapshot.var("C"), None);
}

#[test]
fn decimal_text_prints_numbers() {
    assert_eq!(decimal_text(0), "0");
    assert_eq!(decimal_text(1234567890), "1234567890");
    assert_eq!(decimal_text(u64::MAX), u64::MAX.to_string());
}

#[test]
fn parse_u64_reads_plain_decimal_numbers() {
    assert_eq!(parse_u64("0"), Some(0));
    assert_eq!(parse_u64("+42"), Some(42));
    assert_eq!(parse_u64("18446744073709551615"), Some(u64::MAX));
    assert_eq!(parse_u64("18446744073709551616"), None);
    assert_eq!(parse_u64("184467440737095516150x"), None);
    assert_eq!(parse_u64(""), None);
    assert_eq!(parse_u64("+"), None);
    assert_eq!(parse_u64("-1"), None);
    assert_eq!(parse_u64(" 1"), None);
    assert_eq!(parse_u64("12a"), None);
}

#[test]
fn environment_is_matched_in_ascii_lowercase() {
    let mut pairs = vec![("ENVIRONMENT", "PrOdUcTiOn")];
    pairs.extend_from_slice(&CREDENTIALS);
    assert_eq!(Config::from_env(&env(&pairs)).unwrap().environment, Environment::Production);
    let mut odd = vec![("ENVIRONMENT", "DÉV-Ä")];
    odd.extend_from_slice(&CREDENTIALS);
    assert_eq!(
        Config::from_env(&env(&odd)).unwrap_err(),
        ConfigError::InvalidEnvironment("dÉv-Ä".to_string())
    );
}
