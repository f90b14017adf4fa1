use items_api::config::{database_url_key, load_config, Config, ConfigError};

#[test]
fn present_value_becomes_the_database_url() {
    let loaded = load_config(Some(String::from("postgres://user@localhost/items")));
    assert_eq!(loaded, Ok(Config { database_url: String::from("postgres://user@localhost/items") }));
}

#[test]
fn empty_value_is_still_a_value() {
    assert_eq!(load_config(Some(String::new())), Ok(Config { database_url: String::new() }));
}

#[test]
fn absent_value_is_refused() {
    assert_eq!(load_config(None), Err(ConfigError::MissingDatabaseUrl));
}

#[test]
fn missing_url_has_its_diagnostic() {
    assert_eq!(ConfigError::MissingDatabaseUrl.message(), "DATABASE_URL not set in environment");
}

#[test]
fn the_url_is_looked_up_under_database_url() {
    assert_eq!(database_url_key(), "DATABASE_URL");
}

#[test]
fn a_cloned_config_holds_the_same_url() {
    let config = Config { database_url: String::from("postgres://db") };
    assert_eq!(config.clone(), config);
}
