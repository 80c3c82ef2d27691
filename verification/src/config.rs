use crate::shared::text::{decimal, decimal_text};
use vstd::prelude::*;
use vstd::string::StringExecFns;

verus! {

/// The settings of the whole service.
#[derive(Debug, Clone)]
pub struct AppConfig {
    pub server: ServerConfig,
    pub postgres: PostgresConfig,
    pub clickhouse: ClickHouseConfig,
    pub kafka: KafkaConfig,
    pub auth: AuthConfig,
}

#[derive(Debug, Clone)]
pub struct ServerConfig {
    pub host: String,
    pub port: u16,
    pub cors_allowed_origins: Vec<String>,
}

#[derive(Debug, Clone)]
pub struct PostgresConfig {
    pub uri: String,
    pub max_connections: u32,
}

#[derive(Debug, Clone)]
pub struct ClickHouseConfig {
    pub uri: String,
    pub database: String,
}

#[derive(Debug, Clone)]
pub struct KafkaConfig {
    pub brokers: String,
    pub group_id: String,
    pub topic: String,
    pub poll_interval_ms: u64,
}

/// What the issuing and the checking of tokens go by.
#[derive(Debug, Clone)]
pub struct AuthConfig {
    pub jwt_secret: String,
    pub jwt_audience: String,
    pub jwt_issuer: String,
    pub jwt_ttl_seconds: i64,
    pub password_salt: String,
}

impl AppConfig {
    /// The address to listen on: the host, a colon and the port.
    pub fn addr(&self) -> (out: String)
        ensures
            out@ == self.server.host@ + seq![':'] + decimal(self.server.port as nat),
    {
        proof {
            reveal_strlit(":");
            assert(":"@ =~= seq![':']);
        }
        let mut out = self.server.host.clone();
        out.append(":");
        let port = decimal_text(self.server.port as u64);
        out.append(port.as_str());
        out
    }
}

impl PostgresConfig {
    /// The size of the connection pool where none is configured.
    pub fn default_pool_size() -> (out: u32)
        ensures
            out == 10,
    {
        10
    }
}

/// The span of time that `std::time::Duration::from_millis` makes of a
/// number of milliseconds.
pub uninterp spec fn millis_span(millis: u64) -> std::time::Duration;

/// Calls `std::time::Duration::from_millis`, which makes the span of the
/// given number of milliseconds. The result is the span that `millis_span`
/// names.
#[verifier::external_body]
fn duration_from_millis(millis: u64) -> (out: std::time::Duration)
    ensures
        out == millis_span(millis),
{
    std::time::Duration::from_millis(millis)
}

impl KafkaConfig {
    /// The polling interval, in milliseconds, where none is configured.
    pub fn default_poll_interval_ms() -> (out: u64)
        ensures
            out == 500,
    {
        500
    }

    /// The polling interval as a span of time: the span of as many
    /// milliseconds as are configured.
    pub fn poll_interval(&self) -> (out: std::time::Duration)
        ensures
            out == millis_span(self.poll_interval_ms),
    {
        duration_from_millis(self.poll_interval_ms)
    }
}

impl AuthConfig {
    /// The salt for passwords where none is configured.
    pub fn default_password_salt() -> (out: String)
        ensures
            out@ == "change_me"@,
    {
        String::from_str("change_me")
    }
}

} // verus!
