//! Configuration consumed by the gateway: cache sizes and TTLs, client
//! timeouts, reserved header names, and the deployment environment. The
//! values mirror what the service reads from its environment; reading
//! them is the shell's job, the defaults and their meaning live here.
use crate::strutil::{decimal_rep, to_decimal};
use vstd::prelude::*;
use vstd::string::StringExecFns;

verus! {

/// Where the gateway runs; only production suppresses the strict
/// cardinality checks of the response transform.
#[derive(Debug, Clone, Copy, PartialEq, Eq, Structural)]
pub enum Environment {
    Development,
    Production,
}

impl Environment {
    pub fn is_production(&self) -> (r: bool)
        ensures
            r == (*self is Production),
    {
        match self {
            Environment::Production => true,
            Environment::Development => false,
        }
    }

    pub fn as_str(&self) -> (r: &'static str)
        ensures
            r@ == (match *self {
                Environment::Development => "development"@,
                Environment::Production => "production"@,
            }),
    {
        match self {
            Environment::Development => "development",
            Environment::Production => "production",
        }
    }
}

/// How Kubernetes provisioning requests are carried out: against a real
/// cluster, or only logged.
#[derive(Debug, Clone, Copy, PartialEq, Eq, Structural)]
pub enum K8sMode {
    Real,
    Logger,
}

/// The reserved header names the gateway reads and writes.
#[derive(Debug, Clone, PartialEq, Eq)]
pub struct Headers {
    pub auth_header: String,
    pub connection_header: String,
    pub enable_passthrough_header: String,
    pub rate_limit_limit: String,
    pub rate_limit_remaining: String,
    pub rate_limit_reset: String,
}

/// Every header name empty, as a bare `Headers` value starts out; the
/// reserved names come in only when the environment loader fills the
/// record.
pub open spec fn headers_empty(h: Headers) -> bool {
    &&& h.auth_header@ == Seq::<char>::empty()
    &&& h.connection_header@ == Seq::<char>::empty()
    &&& h.enable_passthrough_header@ == Seq::<char>::empty()
    &&& h.rate_limit_limit@ == Seq::<char>::empty()
    &&& h.rate_limit_remaining@ == Seq::<char>::empty()
    &&& h.rate_limit_reset@ == Seq::<char>::empty()
}

/// The documented header names the environment loader falls back to
/// when no overrides are set.
pub open spec fn headers_default_names(h: Headers) -> bool {
    &&& h.auth_header@ == "x-pica-secret"@
    &&& h.connection_header@ == "x-pica-connection-key"@
    &&& h.enable_passthrough_header@ == "x-pica-enable-passthrough"@
    &&& h.rate_limit_limit@ == "x-pica-rate-limit-limit"@
    &&& h.rate_limit_remaining@ == "x-pica-rate-limit-remainings"@
    &&& h.rate_limit_reset@ == "x-pica-rate-limit-reset"@
}

impl Default for Headers {
    fn default() -> (r: Self)
        ensures
            headers_empty(r),
    {
        Headers {
            auth_header: String::new(),
            connection_header: String::new(),
            enable_passthrough_header: String::new(),
            rate_limit_limit: String::new(),
            rate_limit_remaining: String::new(),
            rate_limit_reset: String::new(),
        }
    }
}

impl Headers {
    pub fn new() -> (r: Self)
        ensures
            headers_empty(r),
    {
        Self::default()
    }

    /// The reserved names as the environment loader's defaults give them.
    pub fn default_names() -> (r: Self)
        ensures
            headers_default_names(r),
    {
        Headers {
            auth_header: String::from_str("x-pica-secret"),
            connection_header: String::from_str("x-pica-connection-key"),
            enable_passthrough_header: String::from_str("x-pica-enable-passthrough"),
            rate_limit_limit: String::from_str("x-pica-rate-limit-limit"),
            rate_limit_remaining: String::from_str("x-pica-rate-limit-remainings"),
            rate_limit_reset: String::from_str("x-pica-rate-limit-reset"),
        }
    }
}

/// Time-to-live, in seconds, of each cache the dispatch engine consults.
#[derive(Debug, Clone, PartialEq, Eq, Structural)]
pub struct UnifiedCacheTTLs {
    pub connection_cache_ttl_secs: u64,
    pub connection_model_definition_cache_ttl_secs: u64,
    pub connection_model_schema_cache_ttl_secs: u64,
    pub secret_cache_ttl_secs: u64,
}

/// The gateway's configuration record.
#[derive(Debug, Clone, PartialEq, Eq)]
pub struct ConnectionsConfig {
    pub worker_threads: Option<u64>,
    pub address: String,
    pub cache_size: u64,
    pub access_key_cache_ttl_secs: u64,
    pub access_key_whitelist_refresh_interval_secs: u64,
    pub connection_cache_ttl_secs: u64,
    pub engineering_account_id: String,
    pub connection_definition_cache_ttl_secs: u64,
    pub connection_oauth_definition_cache_ttl_secs: u64,
    pub connection_model_schema_cache_ttl_secs: u64,
    pub connection_model_definition_cache_ttl_secs: u64,
    pub secret_cache_ttl_secs: u64,
    pub event_access_password: String,
    pub event_access_throughput: u64,
    pub event_save_buffer_size: u64,
    pub event_save_timeout_secs: u64,
    pub metric_save_channel_size: u64,
    pub metric_system_id: String,
    pub jwt_secret: String,
    pub connections_url: String,
    pub oauth_url: String,
    pub api_version: String,
    pub http_client_timeout_secs: u64,
    pub headers: Headers,
    pub rate_limit_enabled: bool,
    pub environment: Environment,
    pub database_connection_docker_image: String,
    pub namespace: String,
    pub database_connection_probe_timeout_secs: u64,
    pub k8s_mode: K8sMode,
}

/// The documented default for every field that has one.
pub open spec fn config_defaults(c: ConnectionsConfig) -> bool {
    &&& c.worker_threads is None
    &&& c.address@ == "0.0.0.0:3005"@
    &&& c.cache_size == 100
    &&& c.access_key_cache_ttl_secs == 1800
    &&& c.access_key_whitelist_refresh_interval_secs == 60
    &&& c.connection_cache_ttl_secs == 120
    &&& c.connection_definition_cache_ttl_secs == 86400
    &&& c.connection_oauth_definition_cache_ttl_secs == 86400
    &&& c.connection_model_schema_cache_ttl_secs == 86400
    &&& c.connection_model_definition_cache_ttl_secs == 86400
    &&& c.secret_cache_ttl_secs == 300
    &&& c.event_access_throughput == 500
    &&& c.event_save_buffer_size == 2048
    &&& c.event_save_timeout_secs == 30
    &&& c.metric_save_channel_size == 2048
    &&& c.metric_system_id@ == "Pica-Internal-System"@
    &&& c.connections_url@ == "http://localhost:3005"@
    &&& c.oauth_url@ == "http://platform-oauth"@
    &&& c.api_version@ == "v1"@
    &&& c.http_client_timeout_secs == 30
    &&& headers_default_names(c.headers)
    &&& c.rate_limit_enabled == true
    &&& c.environment is Development
    &&& c.database_connection_docker_image@ == "pica-database"@
    &&& c.namespace@ == "development"@
    &&& c.database_connection_probe_timeout_secs == 10
    &&& c.k8s_mode is Logger
    &&& c.engineering_account_id@ == "engineering_account"@
}

impl Default for ConnectionsConfig {
    fn default() -> (r: Self)
        ensures
            config_defaults(r),
            r.event_access_password@ == Seq::<char>::empty(),
            r.jwt_secret@ == Seq::<char>::empty(),
    {
        ConnectionsConfig {
            worker_threads: Option::None,
            address: String::from_str("0.0.0.0:3005"),
            cache_size: 100,
            access_key_cache_ttl_secs: 1800,
            access_key_whitelist_refresh_interval_secs: 60,
            connection_cache_ttl_secs: 120,
            engineering_account_id: String::from_str("engineering_account"),
            connection_definition_cache_ttl_secs: 86400,
            connection_oauth_definition_cache_ttl_secs: 86400,
            connection_model_schema_cache_ttl_secs: 86400,
            connection_model_definition_cache_ttl_secs: 86400,
            secret_cache_ttl_secs: 300,
            event_access_password: String::new(),
            event_access_throughput: 500,
            event_save_buffer_size: 2048,
            event_save_timeout_secs: 30,
            metric_save_channel_size: 2048,
            metric_system_id: String::from_str("Pica-Internal-System"),
            jwt_secret: String::new(),
            connections_url: String::from_str("http://localhost:3005"),
            oauth_url: String::from_str("http://platform-oauth"),
            api_version: String::from_str("v1"),
            http_client_timeout_secs: 30,
            headers: Headers::default_names(),
            rate_limit_enabled: true,
            environment: Environment::Development,
            database_connection_docker_image: String::from_str("pica-database"),
            namespace: String::from_str("development"),
            database_connection_probe_timeout_secs: 10,
            k8s_mode: K8sMode::Logger,
        }
    }
}

/// One `NAME: value` line of the configuration summary.
pub open spec fn summary_line(name: Seq<char>, value: Seq<char>) -> Seq<char> {
    name + ": "@ + value + "\n"@
}

impl ConnectionsConfig {
    /// A line-per-field rendering for logs; secrets show as `***`.
    #[verifier::rlimit(60)]
    pub fn summary(&self) -> (r: String)
        ensures
            r@ == summary_line("CACHE_SIZE"@, decimal_rep(self.cache_size as nat)) + summary_line(
                "CONNECTION_CACHE_TTL_SECS"@,
                decimal_rep(self.connection_cache_ttl_secs as nat),
            ) + summary_line("EVENT_ACCESS_PASSWORD"@, "***"@) + summary_line(
                "CONNECTIONS_URL"@,
                self.connections_url@,
            ) + summary_line("JWT_SECRET"@, "***"@) + summary_line(
                "API_VERSION"@,
                self.api_version@,
            ) + summary_line("RATE_LIMIT_ENABLED"@, if self.rate_limit_enabled {
                "true"@
            } else {
                "false"@
            }) + summary_line("ENVIRONMENT"@, match self.environment {
                Environment::Development => "development"@,
                Environment::Production => "production"@,
            }) + summary_line("NAMESPACE"@, self.namespace@),
    {
        let mut out = String::new();
        out.append("CACHE_SIZE");
        out.append(": ");
        let cache_size = to_decimal(self.cache_size);
        out.append(cache_size.as_str());
        out.append("\n");
        out.append("CONNECTION_CACHE_TTL_SECS");
        out.append(": ");
        let ttl = to_decimal(self.connection_cache_ttl_secs);
        out.append(ttl.as_str());
        out.append("\n");
        out.append("EVENT_ACCESS_PASSWORD");
        out.append(": ");
        out.append("***");
        out.append("\n");
        out.append("CONNECTIONS_URL");
        out.append(": ");
        out.append(self.connections_url.as_str());
        out.append("\n");
        out.append("JWT_SECRET");
        out.append(": ");
        out.append("***");
        out.append("\n");
        out.append("API_VERSION");
        out.append(": ");
        out.append(self.api_version.as_str());
        out.append("\n");
        out.append("RATE_LIMIT_ENABLED");
        out.append(": ");
        if self.rate_limit_enabled {
            out.append("true");
        } else {
            out.append("false");
        }
        out.append("\n");
        out.append("ENVIRONMENT");
        out.append(": ");
        out.append(self.environment.as_str());
        out.append("\n");
        out.append("NAMESPACE");
        out.append(": ");
        out.append(self.namespace.as_str());
        out.append("\n");
        out
    }
}

} // verus!
