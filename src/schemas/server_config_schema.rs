//! Settings shared by the host servers.
use vstd::prelude::*;

verus! {

/// Configuration for the host servers.
#[derive(Clone, Debug)]
pub struct ServerConfigSchema {
    pub api: Api,
    pub cors: Cors,
    /// Enable debug mode
    pub debug: bool,
    /// Current environment
    pub environment: Environment,
    pub jsonrpc: Jsonrpc,
    pub logging: Logging,
    pub nginx: Nginx,
    pub redis: Redis,
    pub servers: Servers,
    pub sse: Sse,
}

#[derive(Clone, Debug)]
pub struct Api {
    /// API base path
    pub base_path: String,
    pub rate_limit: RateLimit,
    /// Enable Swagger documentation
    pub swagger_enabled: bool,
    /// API version
    pub version: String,
}

#[derive(Clone, Copy, Debug, PartialEq, Eq)]
pub struct RateLimit {
    /// Maximum requests per window
    pub max_requests: i64,
    /// Rate limit window in milliseconds
    pub window_ms: i64,
}

#[derive(Clone, Debug)]
pub struct Cors {
    /// Allow credentials in CORS requests
    pub allow_credentials: bool,
    /// Allowed HTTP headers
    pub allowed_headers: Vec<String>,
    /// Allowed HTTP methods
    pub allowed_methods: Vec<AllowedMethod>,
    /// Allowed CORS origins
    pub allowed_origins: Vec<String>,
}

#[derive(Clone, Copy, Debug, PartialEq, Eq)]
pub enum AllowedMethod {
    Delete,
    Get,
    Head,
    Options,
    Patch,
    Post,
    Put,
}

/// Current environment
#[derive(Clone, Copy, Debug, PartialEq, Eq)]
pub enum Environment {
    Development,
    Production,
    Testing,
}

#[derive(Clone, Copy, Debug, PartialEq, Eq)]
pub struct Jsonrpc {
    /// Maximum batch request size
    pub batch_limit: i64,
    /// Request timeout in milliseconds
    pub timeout: i64,
    /// JSON-RPC version
    pub version: Version,
}

/// JSON-RPC version
#[derive(Clone, Copy, Debug, PartialEq, Eq)]
pub enum Version {
    The20,
}

#[derive(Clone, Copy, Debug, PartialEq, Eq)]
pub struct Logging {
    /// Enable console logging
    pub console_enabled: bool,
    /// Enable file logging
    pub file_enabled: bool,
    /// Log format
    pub format: Format,
    /// Logging level
    pub level: Level,
}

/// Log format
#[derive(Clone, Copy, Debug, PartialEq, Eq)]
pub enum Format {
    Json,
    Text,
}

/// Logging level
#[derive(Clone, Copy, Debug, PartialEq, Eq)]
pub enum Level {
    Debug,
    Error,
    Info,
    Warn,
}

#[derive(Clone, Debug)]
pub struct Nginx {
    /// Health check endpoint path
    pub health_check_path: String,
    /// NGINX listen port
    pub port: i64,
    /// NGINX upstream name
    pub upstream_name: String,
}

#[derive(Clone, Debug)]
pub struct Redis {
    /// Redis database number
    pub db: i64,
    /// Redis host address
    pub host: String,
    /// Maximum retry attempts per request
    pub max_retries_per_request: Option<i64>,
    /// Redis password (optional)
    pub password: Option<String>,
    /// Redis port number
    pub port: i64,
    /// Retry delay in milliseconds
    pub retry_delay_on_failover: Option<i64>,
}

#[derive(Clone, Debug)]
pub struct Servers {
    pub csharp: ServerInfo,
    pub golang: ServerInfo,
    pub nodejs: ServerInfo,
    pub python: ServerInfo,
}

#[derive(Clone, Debug)]
pub struct ServerInfo {
    /// Server host address
    pub host: String,
    /// Server name
    pub name: String,
    /// Server port number
    pub port: i64,
}

#[derive(Clone, Copy, Debug, PartialEq, Eq)]
pub struct Sse {
    /// SSE heartbeat interval in milliseconds
    pub heartbeat_interval: i64,
    /// Maximum SSE connections
    pub max_connections: i64,
    /// SSE reconnect timeout in milliseconds
    pub reconnect_timeout: i64,
}

} // verus!
