use student_records::clock::now_unix_seconds;
use student_records::config::{
    AppConfig, AuthConfig, DatabaseConfig, LoggingConfig, ServerConfig,
};
use student_records::role::Role;

fn sample_config() -> AppConfig {
    AppConfig {
        database: DatabaseConfig {
            url: "postgres://localhost/records".to_string(),
            max_connections: 5,
            min_connections: 1,
            connection_timeout: 30,
        },
        server: ServerConfig {
            host: "0.0.0.0".to_string(),
            port: 8081,
            cors_allowed_origins: vec!["http://localhost:3000".to_string()],
        },
        auth: AuthConfig {
            secret_key: "s3cret".to_string(),
            token_expiration: 86400,
            refresh_token_expiration: 604800,
        },
        logging: LoggingConfig { level: "info".to_string() },
    }
}

#[test]
fn pool_settings_are_projected_from_the_database_settings() {
    let pool = sample_config().get_db_connection_pool_config();
    assert_eq!(pool.url, "postgres://localhost/records");
    assert_eq!(pool.max_size, 5);
    assert_eq!(pool.min_idle, Some(1));
    assert_eq!(pool.connection_timeout, 30);
}

fn role(name: &str) -> Role {
    Role {
        id: 1,
        name: name.to_string(),
        description: None,
        created_at: 0,
        updated_at: 0,
    }
}

#[test]
fn role_name_predicates() {
    assert!(role("admin").is_admin());
    assert!(!role("admin").is_user());
    assert!(role("user").is_user());
    assert!(!role("user").is_admin());
    assert!(!role("Admin").is_admin());
}

#[test]
fn the_clock_reads_a_present_day_time() {
    let now = now_unix_seconds();
    assert!(now > 1_600_000_000);
}
