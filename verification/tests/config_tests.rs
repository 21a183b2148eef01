use db_pool::config::{ConfigError, DbConfig, DbConfigBuilder, EnvSnapshot};
use db_pool::decimal::{parse_dec, u32_to_dec};

fn full_env() -> EnvSnapshot {
    EnvSnapshot {
        host: Some(String::from("localhost")),
        name: Some(String::from("reader")),
        user: Some(String::from("reader_user")),
        pass: Some(String::from("password")),
        port: Some(String::from("5431")),
        min_pool_size: Some(String::from("1")),
        max_pool_size: Some(String::from("3")),
        app_name: Some(String::from("some-app-to-run")),
        idle_in_transaction_session: Some(String::from("3000")),
    }
}

fn missing_var(r: Result<DbConfig, ConfigError>) -> &'static str {
    match r {
        Err(ConfigError::MissingConfiguration(v)) => v,
        Ok(_) => panic!("expected a missing-configuration error"),
    }
}

#[test]
fn builder_with_every_field_set_renders_the_template() {
    let config = DbConfigBuilder::new()
        .host("localhost")
        .user("reader_user")
        .name("reader")
        .pass("password")
        .app_name("some-app-to-run")
        .port(5431)
        .min_pool_size(1)
        .max_pool_size(3)
        .idle_in_transaction_session(3000)
        .build()
        .expect("every field is set");
    assert_eq!(
        config.connection_url(),
        "postgresql://localhost:5431?dbname=reader&user=reader_user&password=password\
         &application_name=some-app-to-run\
         &options=-c%20idle_in_transaction_session_timeout%3D3000"
    );
}

#[test]
fn builder_without_any_field_reports_host_first() {
    assert_eq!(DbConfigBuilder::new().build().err(), Some("host is required"));
}

#[test]
fn builder_reports_the_first_unset_field_in_order() {
    assert_eq!(
        DbConfigBuilder::new().host("h").build().err(),
        Some("name is required")
    );
    assert_eq!(
        DbConfigBuilder::new().host("h").name("n").user("u").build().err(),
        Some("pass is required")
    );
    assert_eq!(
        DbConfigBuilder::new().host("h").name("n").user("u").pass("p").build().err(),
        Some("port is required")
    );
    assert_eq!(
        DbConfigBuilder::new()
            .host("h")
            .name("n")
            .user("u")
            .pass("p")
            .port(5432)
            .min_pool_size(1)
            .max_pool_size(2)
            .idle_in_transaction_session(2000)
            .build()
            .err(),
        Some("app_name is required")
    );
}

#[test]
fn from_env_reports_each_absent_required_variable() {
    let mut env = full_env();
    env.host = None;
    assert_eq!(missing_var(DbConfig::from_env(env)), "DB_HOST");

    let mut env = full_env();
    env.name = None;
    assert_eq!(missing_var(DbConfig::from_env(env)), "DB_NAME");

    let mut env = full_env();
    env.user = None;
    assert_eq!(missing_var(DbConfig::from_env(env)), "DB_USER");

    let mut env = full_env();
    env.pass = None;
    assert_eq!(missing_var(DbConfig::from_env(env)), "DB_PASS");
}

#[test]
fn from_env_reports_the_first_absent_required_variable() {
    let env = EnvSnapshot {
        host: None,
        name: None,
        user: None,
        pass: None,
        port: None,
        min_pool_size: None,
        max_pool_size: None,
        app_name: None,
        idle_in_transaction_session: None,
    };
    assert_eq!(missing_var(DbConfig::from_env(env)), "DB_HOST");
}

#[test]
fn from_env_fills_documented_defaults_for_absent_optionals() {
    let mut env = full_env();
    env.port = None;
    env.min_pool_size = None;
    env.max_pool_size = None;
    env.app_name = None;
    env.idle_in_transaction_session = None;
    let config = DbConfig::from_env(env).expect("required variables are present");
    assert_eq!(config.port, 5432);
    assert_eq!(config.min_pool_size, 1);
    assert_eq!(config.max_pool_size, 1);
    assert_eq!(config.app_name, "app-name-not-defined");
    assert_eq!(config.idle_in_transaction_session, 2000);
}

#[test]
fn from_env_defaults_on_non_numeric_optionals() {
    let mut env = full_env();
    env.port = Some(String::from("not-a-number"));
    env.min_pool_size = Some(String::from("one"));
    env.max_pool_size = Some(String::from("3.5"));
    env.idle_in_transaction_session = Some(String::from(""));
    let config = DbConfig::from_env(env).expect("malformed optionals never fail the load");
    assert_eq!(config.port, 5432);
    assert_eq!(config.min_pool_size, 1);
    assert_eq!(config.max_pool_size, 1);
    assert_eq!(config.idle_in_transaction_session, 2000);
}

#[test]
fn from_env_defaults_on_out_of_range_optionals() {
    let mut env = full_env();
    env.port = Some(String::from("70000"));
    env.min_pool_size = Some(String::from("4294967296"));
    env.idle_in_transaction_session = Some(String::from("-1"));
    let config = DbConfig::from_env(env).expect("out-of-range optionals never fail the load");
    assert_eq!(config.port, 5432);
    assert_eq!(config.min_pool_size, 1);
    assert_eq!(config.idle_in_transaction_session, 2000);
}

#[test]
fn from_env_takes_well_formed_optionals() {
    let config = DbConfig::from_env(full_env()).expect("all variables are present");
    assert_eq!(config.host, "localhost");
    assert_eq!(config.name, "reader");
    assert_eq!(config.user, "reader_user");
    assert_eq!(config.pass, "password");
    assert_eq!(config.port, 5431);
    assert_eq!(config.min_pool_size, 1);
    assert_eq!(config.max_pool_size, 3);
    assert_eq!(config.app_name, "some-app-to-run");
    assert_eq!(config.idle_in_transaction_session, 3000);
}

#[test]
fn from_env_accepts_a_plus_signed_optional() {
    let mut env = full_env();
    env.port = Some(String::from("+5431"));
    let config = DbConfig::from_env(env).expect("required variables are present");
    assert_eq!(config.port, 5431);
}

#[test]
fn connection_url_of_an_env_config_matches_the_template() {
    let config = DbConfig::from_env(full_env()).expect("all variables are present");
    assert_eq!(
        config.connection_url(),
        "postgresql://localhost:5431?dbname=reader&user=reader_user&password=password\
         &application_name=some-app-to-run\
         &options=-c%20idle_in_transaction_session_timeout%3D3000"
    );
}

#[test]
fn connection_url_renders_extreme_numeric_fields() {
    let config = DbConfigBuilder::new()
        .host("h")
        .name("d")
        .user("u")
        .pass("p")
        .app_name("a")
        .port(65535)
        .min_pool_size(1)
        .max_pool_size(1)
        .idle_in_transaction_session(0)
        .build()
        .expect("every field is set");
    assert_eq!(
        config.connection_url(),
        "postgresql://h:65535?dbname=d&user=u&password=p&application_name=a\
         &options=-c%20idle_in_transaction_session_timeout%3D0"
    );
}

#[test]
fn parse_dec_matches_unsigned_decimal_grammar() {
    assert_eq!(parse_dec("0", u32::MAX), Some(0));
    assert_eq!(parse_dec("42", u32::MAX), Some(42));
    assert_eq!(parse_dec("+42", u32::MAX), Some(42));
    assert_eq!(parse_dec("4294967295", u32::MAX), Some(4294967295));
    assert_eq!(parse_dec("4294967296", u32::MAX), None);
    assert_eq!(parse_dec("65535", 65535), Some(65535));
    assert_eq!(parse_dec("65536", 65535), None);
    assert_eq!(parse_dec("", u32::MAX), None);
    assert_eq!(parse_dec("+", u32::MAX), None);
    assert_eq!(parse_dec("-1", u32::MAX), None);
    assert_eq!(parse_dec("1 2", u32::MAX), None);
    assert_eq!(parse_dec(" 7", u32::MAX), None);
    assert_eq!(parse_dec("007", u32::MAX), Some(7));
}

#[test]
fn u32_to_dec_renders_canonical_digits() {
    assert_eq!(u32_to_dec(0), "0");
    assert_eq!(u32_to_dec(7), "7");
    assert_eq!(u32_to_dec(5432), "5432");
    assert_eq!(u32_to_dec(4294967295), "4294967295");
}
