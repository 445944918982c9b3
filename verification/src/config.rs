use vstd::prelude::*;

verus! {

/// Database settings. `connection_timeout` is in seconds.
pub struct DatabaseConfig {
    pub url: String,
    pub max_connections: u32,
    pub min_connections: u32,
    pub connection_timeout: u64,
}

/// HTTP server settings.
pub struct ServerConfig {
    pub host: String,
    pub port: u16,
    pub cors_allowed_origins: Vec<String>,
}

/// Authentication settings: the signing secret and token lifetimes in
/// seconds.
pub struct AuthConfig {
    pub secret_key: String,
    pub token_expiration: u64,
    pub refresh_token_expiration: u64,
}

/// Logging settings.
pub struct LoggingConfig {
    pub level: String,
}

/// The process-wide configuration, assembled once at startup and injected
/// into whatever needs it — never looked up ambiently.
pub struct AppConfig {
    pub database: DatabaseConfig,
    pub server: ServerConfig,
    pub auth: AuthConfig,
    pub logging: LoggingConfig,
}

/// What the connection-pool builder needs. `connection_timeout` is in
/// seconds.
pub struct DBPoolConfig {
    pub url: String,
    pub max_size: u32,
    pub min_idle: Option<u32>,
    pub connection_timeout: u64,
}

impl AppConfig {
    /// Project the database settings into the shape the pool builder takes.
    pub fn get_db_connection_pool_config(&self) -> (r: DBPoolConfig)
        ensures
            r.url@ == self.database.url@,
            r.max_size == self.database.max_connections,
            r.min_idle == Some(self.database.min_connections),
            r.connection_timeout == self.database.connection_timeout,
    {
        DBPoolConfig {
            url: self.database.url.clone(),
            max_size: self.database.max_connections,
            min_idle: Some(self.database.min_connections),
            connection_timeout: self.database.connection_timeout,
        }
    }
}

} // verus!
