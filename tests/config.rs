use rmod::config::DbConfig;

fn config(schema: Option<&str>, acquire: Option<i16>, idle: Option<i16>) -> DbConfig {
    DbConfig {
        host: "localhost".to_string(),
        port: 5432,
        database: "app".to_string(),
        schema: schema.map(|s| s.to_string()),
        username: "u".to_string(),
        password: "p".to_string(),
        max_connections: 5,
        min_connections: 1,
        acquire_timeout: acquire,
        idle_timeout: idle,
    }
}

#[test]
fn pool_settings_defaults() {
    let c = config(None, None, None);
    assert_eq!(c.schema_or_default(), "public");
    assert_eq!(c.acquire_timeout_secs(), 30);
    assert_eq!(c.idle_timeout_secs(), 10);
}

#[test]
fn pool_settings_given() {
    let c = config(Some("sales"), Some(5), Some(-1));
    assert_eq!(c.schema_or_default(), "sales");
    assert_eq!(c.acquire_timeout_secs(), 5);
    assert_eq!(c.idle_timeout_secs(), (-1i16) as u64);
    assert_eq!(config(None, Some(i16::MIN), None).acquire_timeout_secs(), i16::MIN as u64);
}
