//! The server's configuration, what of it is shown, and what may be asked
//! of it.

use crate::calendar::Timestamp;
use crate::monitoring::{sent_at, sent_at_text};
use crate::text::{join, joined};
use vstd::prelude::*;

verus! {

#[derive(Clone, Debug, PartialEq, Eq)]
pub struct ServerConfig {
    pub host: String,
    pub port: u16,
    pub workers: Option<usize>,
}

#[derive(Clone, Debug, PartialEq, Eq)]
pub struct DatabaseConfig {
    pub url: String,
    pub max_connections: u32,
    pub connect_timeout: u64,
}

#[derive(Clone, Debug, PartialEq, Eq)]
pub struct JwtConfig {
    pub secret: String,
    pub access_token_expires_in: i64,
    pub refresh_token_expires_in: i64,
}

#[derive(Clone, Debug, PartialEq, Eq)]
pub struct StorageConfig {
    pub upload_path: String,
    pub max_file_size: u64,
    pub use_cdn: bool,
    pub cdn_base_url: String,
}

#[derive(Clone, Debug, PartialEq, Eq)]
pub struct CorsConfig {
    pub allowed_origins: Vec<String>,
    pub allowed_methods: Vec<String>,
    pub allowed_headers: Vec<String>,
}

#[derive(Clone, Debug, PartialEq, Eq)]
pub struct SmtpConfig {
    pub enabled: bool,
    pub host: String,
    pub port: u16,
    pub username: String,
    pub password: String,
    pub from_address: String,
    pub from_name: String,
    pub use_tls: bool,
}

#[derive(Clone, Debug, PartialEq, Eq)]
pub struct Config {
    pub server: ServerConfig,
    pub database: DatabaseConfig,
    pub jwt: JwtConfig,
    pub storage: StorageConfig,
    pub cors: CorsConfig,
    pub smtp: SmtpConfig,
}

pub fn default_smtp_host() -> (host: String)
    ensures
        host@ == "smtp.gmail.com"@,
{
    "smtp.gmail.com".to_string()
}

pub fn default_smtp_port() -> (port: u16)
    ensures
        port == 587,
{
    587
}

pub fn default_smtp_from_address() -> (address: String)
    ensures
        address@ == "noreply@geektools.dev"@,
{
    "noreply@geektools.dev".to_string()
}

pub fn default_smtp_from_name() -> (name: String)
    ensures
        name@ == "GeekTools Plugin Marketplace"@,
{
    "GeekTools Plugin Marketplace".to_string()
}

pub fn default_true() -> (yes: bool)
    ensures
        yes,
{
    true
}

impl SmtpConfig {
    /// Mail is switched off, no credentials are set, and the rest names
    /// the standard relay.
    pub open spec fn is_default(&self) -> bool {
        &&& !self.enabled
        &&& self.host@ == "smtp.gmail.com"@
        &&& self.port == 587
        &&& self.username@ == Seq::<char>::empty()
        &&& self.password@ == Seq::<char>::empty()
        &&& self.from_address@ == "noreply@geektools.dev"@
        &&& self.from_name@ == "GeekTools Plugin Marketplace"@
        &&& self.use_tls
    }
}

impl Default for SmtpConfig {
    fn default() -> (config: SmtpConfig)
        ensures
            config.is_default(),
    {
        SmtpConfig {
            enabled: false,
            host: default_smtp_host(),
            port: default_smtp_port(),
            username: String::new(),
            password: String::new(),
            from_address: default_smtp_from_address(),
            from_name: default_smtp_from_name(),
            use_tls: true,
        }
    }
}

impl Config {
    /// The configuration of a server that nobody has configured.
    pub open spec fn is_default(&self) -> bool {
        &&& self.server.host@ == "0.0.0.0"@
        &&& self.server.port == 3000
        &&& self.server.workers is None
        &&& self.database.url@ == "sqlite://marketplace.db"@
        &&& self.database.max_connections == 10
        &&& self.database.connect_timeout == 30
        &&& self.jwt.secret@ == "your-secret-key-change-this-in-production"@
        &&& self.jwt.access_token_expires_in == 3600
        &&& self.jwt.refresh_token_expires_in == 604800
        &&& self.storage.upload_path@ == "./uploads"@
        &&& self.storage.max_file_size == 104857600
        &&& !self.storage.use_cdn
        &&& self.storage.cdn_base_url@ == "https://cdn.geektools.dev"@
        &&& self.cors.allowed_origins@.map_values(|s: String| s@) == seq![
            "http://localhost:3000"@,
            "http://localhost:3001"@,
            "http://localhost:8080"@,
        ]
        &&& self.cors.allowed_methods@.map_values(|s: String| s@) == seq![
            "GET"@,
            "POST"@,
            "PUT"@,
            "DELETE"@,
        ]
        &&& self.cors.allowed_headers@.map_values(|s: String| s@) == seq![
            "Authorization"@,
            "Content-Type"@,
            "Accept"@,
        ]
        &&& self.smtp.is_default()
    }
}

impl Default for Config {
    fn default() -> (config: Config)
        ensures
            config.is_default(),
    {
        let mut allowed_origins: Vec<String> = Vec::new();
        allowed_origins.push("http://localhost:3000".to_string());
        allowed_origins.push("http://localhost:3001".to_string());
        allowed_origins.push("http://localhost:8080".to_string());
        let mut allowed_methods: Vec<String> = Vec::new();
        allowed_methods.push("GET".to_string());
        allowed_methods.push("POST".to_string());
        allowed_methods.push("PUT".to_string());
        allowed_methods.push("DELETE".to_string());
        let mut allowed_headers: Vec<String> = Vec::new();
        allowed_headers.push("Authorization".to_string());
        allowed_headers.push("Content-Type".to_string());
        allowed_headers.push("Accept".to_string());
        assert(allowed_origins@.map_values(|s: String| s@) =~= seq![
            "http://localhost:3000"@,
            "http://localhost:3001"@,
            "http://localhost:8080"@,
        ]);
        assert(allowed_methods@.map_values(|s: String| s@) =~= seq![
            "GET"@,
            "POST"@,
            "PUT"@,
            "DELETE"@,
        ]);
        assert(allowed_headers@.map_values(|s: String| s@) =~= seq![
            "Authorization"@,
            "Content-Type"@,
            "Accept"@,
        ]);
        Config {
            server: ServerConfig { host: "0.0.0.0".to_string(), port: 3000, workers: None },
            database: DatabaseConfig {
                url: "sqlite://marketplace.db".to_string(),
                max_connections: 10,
                connect_timeout: 30,
            },
            jwt: JwtConfig {
                secret: "your-secret-key-change-this-in-production".to_string(),
                access_token_expires_in: 3600,
                refresh_token_expires_in: 604800,
            },
            storage: StorageConfig {
                upload_path: "./uploads".to_string(),
                max_file_size: 104857600,
                use_cdn: false,
                cdn_base_url: "https://cdn.geektools.dev".to_string(),
            },
            cors: CorsConfig { allowed_origins, allowed_methods, allowed_headers },
            smtp: SmtpConfig::default(),
        }
    }
}

#[derive(Clone, Debug, PartialEq, Eq)]
pub struct SmtpConfigResponse {
    pub enabled: bool,
    pub host: String,
    pub port: u16,
    pub username: String,
    /// Never the password itself: three stars where one is set.
    pub password: String,
    pub from_address: String,
    pub from_name: String,
    pub use_tls: bool,
}

#[derive(Clone, Copy, Debug, PartialEq, Eq, Structural)]
pub struct DatabaseConfigResponse {
    pub max_connections: u32,
    pub connect_timeout: u64,
}

#[derive(Clone, Debug, PartialEq, Eq)]
pub struct ServerConfigResponse {
    pub host: String,
    pub port: u16,
    pub jwt_access_token_expires_in: i64,
    pub jwt_refresh_token_expires_in: i64,
    /// The allowed origins, one to a line.
    pub cors_origins: String,
}

#[derive(Clone, Debug, PartialEq, Eq)]
pub struct StorageConfigResponse {
    pub upload_path: String,
    pub max_file_size: u64,
    pub use_cdn: bool,
    pub cdn_base_url: String,
}

/// What of the configuration is shown to an administrator.
#[derive(Clone, Debug, PartialEq, Eq)]
pub struct ConfigResponse {
    pub smtp: SmtpConfigResponse,
    pub database: DatabaseConfigResponse,
    pub server: ServerConfigResponse,
    pub storage: StorageConfigResponse,
}

/// What is shown in place of a password: nothing where none is set,
/// three stars where one is.
pub open spec fn masked(password: Seq<char>) -> Seq<char> {
    if password.len() == 0 {
        Seq::empty()
    } else {
        "***"@
    }
}

impl ConfigResponse {
    /// Whether `self` shows `config`: everything as it is, but the mail
    /// password masked, the secret of the tokens left out, and the allowed
    /// origins one to a line.
    pub open spec fn shows(&self, config: Config) -> bool {
        &&& self.smtp.enabled == config.smtp.enabled
        &&& self.smtp.host == config.smtp.host
        &&& self.smtp.port == config.smtp.port
        &&& self.smtp.username == config.smtp.username
        &&& self.smtp.password@ == masked(config.smtp.password@)
        &&& self.smtp.from_address == config.smtp.from_address
        &&& self.smtp.from_name == config.smtp.from_name
        &&& self.smtp.use_tls == config.smtp.use_tls
        &&& self.database.max_connections == config.database.max_connections
        &&& self.database.connect_timeout == config.database.connect_timeout
        &&& self.server.host == config.server.host
        &&& self.server.port == config.server.port
        &&& self.server.jwt_access_token_expires_in == config.jwt.access_token_expires_in
        &&& self.server.jwt_refresh_token_expires_in == config.jwt.refresh_token_expires_in
        &&& self.server.cors_origins@ == joined(config.cors.allowed_origins@, "\n"@)
        &&& self.storage.upload_path == config.storage.upload_path
        &&& self.storage.max_file_size == config.storage.max_file_size
        &&& self.storage.use_cdn == config.storage.use_cdn
        &&& self.storage.cdn_base_url == config.storage.cdn_base_url
    }
}

impl From<&Config> for ConfigResponse {
    /// What of `config` is shown.
    fn from(config: &Config) -> (response: ConfigResponse)
        ensures
            response.shows(*config),
    {
        ConfigResponse {
            smtp: SmtpConfigResponse {
                enabled: config.smtp.enabled,
                host: config.smtp.host.clone(),
                port: config.smtp.port,
                username: config.smtp.username.clone(),
                password: if config.smtp.password.as_str().is_empty() {
                    String::new()
                } else {
                    "***".to_string()
                },
                from_address: config.smtp.from_address.clone(),
                from_name: config.smtp.from_name.clone(),
                use_tls: config.smtp.use_tls,
            },
            database: DatabaseConfigResponse {
                max_connections: config.database.max_connections,
                connect_timeout: config.database.connect_timeout,
            },
            server: ServerConfigResponse {
                host: config.server.host.clone(),
                port: config.server.port,
                jwt_access_token_expires_in: config.jwt.access_token_expires_in,
                jwt_refresh_token_expires_in: config.jwt.refresh_token_expires_in,
                cors_origins: join(&config.cors.allowed_origins, "\n"),
            },
            storage: StorageConfigResponse {
                upload_path: config.storage.upload_path.clone(),
                max_file_size: config.storage.max_file_size,
                use_cdn: config.storage.use_cdn,
                cdn_base_url: config.storage.cdn_base_url.clone(),
            },
        }
    }
}

impl vstd::std_specs::convert::FromSpecImpl<&Config> for ConfigResponse {
    /// What is shown is laid down by `shows`, not by a function of the
    /// configuration: texts are told by their characters only.
    open spec fn obeys_from_spec() -> bool {
        false
    }

    open spec fn from_spec(config: &Config) -> ConfigResponse {
        arbitrary()
    }
}

#[derive(Clone, Debug, PartialEq, Eq)]
pub struct SmtpConfigUpdate {
    pub enabled: bool,
    pub host: String,
    pub port: u16,
    pub username: String,
    pub password: String,
    pub from_address: String,
    pub from_name: String,
    pub use_tls: bool,
}

#[derive(Clone, Copy, Debug, PartialEq, Eq, Structural)]
pub struct DatabaseConfigUpdate {
    pub max_connections: u32,
    pub connect_timeout: u64,
}

#[derive(Clone, Debug, PartialEq, Eq)]
pub struct ServerConfigUpdate {
    pub host: String,
    pub port: u16,
    pub jwt_secret: String,
    pub jwt_access_token_expires_in: i64,
    pub jwt_refresh_token_expires_in: i64,
    pub cors_origins: String,
}

#[derive(Clone, Debug, PartialEq, Eq)]
pub struct StorageConfigUpdate {
    pub upload_path: String,
    pub max_file_size: u64,
    pub use_cdn: bool,
    pub cdn_base_url: Option<String>,
}

#[derive(Clone, Debug, PartialEq, Eq)]
pub struct ConfigTestEmailRequest {
    pub recipient: String,
    pub subject: String,
    pub body: Option<String>,
}

#[derive(Clone, Debug, PartialEq, Eq)]
pub struct RollbackConfigRequest {
    pub history_id: i32,
    pub reason: String,
}

impl SmtpConfigUpdate {
    /// Puts the update in place of `config`.
    pub fn apply(self, config: &mut SmtpConfig)
        ensures
            final(config).enabled == self.enabled,
            final(config).host == self.host,
            final(config).port == self.port,
            final(config).username == self.username,
            final(config).password == self.password,
            final(config).from_address == self.from_address,
            final(config).from_name == self.from_name,
            final(config).use_tls == self.use_tls,
    {
        config.enabled = self.enabled;
        config.host = self.host;
        config.port = self.port;
        config.username = self.username;
        config.password = self.password;
        config.from_address = self.from_address;
        config.from_name = self.from_name;
        config.use_tls = self.use_tls;
    }
}

impl DatabaseConfigUpdate {
    /// Puts the update into `config`; where the database lies stays as it is.
    pub fn apply(self, config: &mut DatabaseConfig)
        ensures
            final(config).url == old(config).url,
            final(config).max_connections == self.max_connections,
            final(config).connect_timeout == self.connect_timeout,
    {
        config.max_connections = self.max_connections;
        config.connect_timeout = self.connect_timeout;
    }
}

impl StorageConfigUpdate {
    /// Puts the update into `config`; the CDN's address stays as it is
    /// where the update names none.
    pub fn apply(self, config: &mut StorageConfig)
        ensures
            final(config).upload_path == self.upload_path,
            final(config).max_file_size == self.max_file_size,
            final(config).use_cdn == self.use_cdn,
            final(config).cdn_base_url == match self.cdn_base_url {
                Some(url) => url,
                None => old(config).cdn_base_url,
            },
    {
        config.upload_path = self.upload_path;
        config.max_file_size = self.max_file_size;
        config.use_cdn = self.use_cdn;
        match self.cdn_base_url {
            Some(url) => {
                config.cdn_base_url = url;
            },
            None => {},
        }
    }
}

impl ConfigTestEmailRequest {
    pub fn get_subject(&self) -> (subject: String)
        ensures
            subject == self.subject,
    {
        self.subject.clone()
    }

    /// The body asked for, or the standard one, which says when it was sent.
    pub fn get_body(&self, now: &Timestamp) -> (body: String)
        requires
            now.wf(),
        ensures
            body@ == match self.body {
                Some(b) => b@,
                None => "This is a test email sent from GeekTools Plugin Marketplace configuration system.\n\nSent at: "@
                    + sent_at_text(*now),
            },
    {
        match &self.body {
            Some(b) => b.clone(),
            None => "This is a test email sent from GeekTools Plugin Marketplace configuration system.\n\nSent at: ".to_string().concat(
                sent_at(now).as_str(),
            ),
        }
    }
}

} // verus!
