//! The gateway server's configuration and its defaults.

use vstd::prelude::*;

verus! {

/// The server configuration; every section has a default.
#[derive(Debug)]
pub struct ServerConfig {
    pub server: ServerSection,
    pub database: DatabaseSection,
    pub clerk: ClerkSection,
    pub github: GithubSection,
    pub tokens: TokensSection,
    pub limits: LimitsSection,
    pub heartbeat: HeartbeatSection,
    pub offline_response: OfflineResponseSection,
}

/// Where agent releases are published.
#[derive(Debug)]
pub struct GithubSection {
    pub repo: Option<String>,
}

/// Dashboard sign-in through Clerk.
#[derive(Debug)]
pub struct ClerkSection {
    pub enabled: bool,
    pub domain: String,
    pub publishable_key: Option<String>,
}

/// The database location.
#[derive(Debug)]
pub struct DatabaseSection {
    pub url: String,
}

/// HTTP settings.
#[derive(Debug)]
pub struct ServerSection {
    pub ws_path: String,
}

/// How tunnel tokens are checked.
#[derive(Debug)]
pub struct TokensSection {
    pub backend: String,
    pub file: Option<String>,
}

/// Connection and request limits.
#[derive(Debug, Clone, Copy)]
pub struct LimitsSection {
    pub max_connections_per_token: u32,
    pub max_total_connections: u32,
    pub request_timeout_secs: u64,
}

/// Keepalive settings.
#[derive(Debug, Clone, Copy)]
pub struct HeartbeatSection {
    pub interval_secs: u64,
    pub timeout_secs: u64,
    pub max_missed: u32,
}

/// What a client is told when no device is online.
#[derive(Debug)]
pub struct OfflineResponseSection {
    pub message: String,
    pub retry_after_secs: u32,
}

/// Default Clerk domain.
pub fn default_clerk_domain() -> (s: String)
    ensures
        s@ == "clerk.example.com"@,
{
    "clerk.example.com".to_string()
}

/// Default database path.
pub fn default_database_url() -> (s: String)
    ensures
        s@ == "portal.db"@,
{
    "portal.db".to_string()
}

/// Default websocket path.
pub fn default_ws_path() -> (s: String)
    ensures
        s@ == "/tunnel"@,
{
    "/tunnel".to_string()
}

/// Default token backend: every token is admitted.
pub fn default_token_backend() -> (s: String)
    ensures
        s@ == "allow_all"@,
{
    "allow_all".to_string()
}

/// Default number of connections per token.
pub fn default_max_connections_per_token() -> (n: u32)
    ensures
        n == 1,
{
    1
}

/// Default number of connections in all.
pub fn default_max_total_connections() -> (n: u32)
    ensures
        n == 10000,
{
    10000
}

/// Default request timeout, in seconds.
pub fn default_request_timeout_secs() -> (n: u64)
    ensures
        n == 30,
{
    30
}

/// Default keepalive interval, in seconds.
pub fn default_heartbeat_interval() -> (n: u64)
    ensures
        n == 30,
{
    30
}

/// Default keepalive timeout, in seconds.
pub fn default_heartbeat_timeout() -> (n: u64)
    ensures
        n == 10,
{
    10
}

/// Default number of missed keepalives tolerated.
pub fn default_max_missed() -> (n: u32)
    ensures
        n == 3,
{
    3
}

/// Default text for offline devices.
pub fn default_offline_message() -> (s: String)
    ensures
        s@ == "The device is currently offline. Please try again later."@,
{
    "The device is currently offline. Please try again later.".to_string()
}

/// Default delay a client is told to wait, in seconds.
pub fn default_retry_after() -> (n: u32)
    ensures
        n == 30,
{
    30
}

impl GithubSection {
    pub open spec fn is_default(&self) -> bool {
        self.repo is None
    }
}

impl ClerkSection {
    pub open spec fn is_default(&self) -> bool {
        !self.enabled && self.domain@ == "clerk.example.com"@ && self.publishable_key is None
    }
}

impl DatabaseSection {
    pub open spec fn is_default(&self) -> bool {
        self.url@ == "portal.db"@
    }
}

impl ServerSection {
    pub open spec fn is_default(&self) -> bool {
        self.ws_path@ == "/tunnel"@
    }
}

impl TokensSection {
    pub open spec fn is_default(&self) -> bool {
        self.backend@ == "allow_all"@ && self.file is None
    }
}

impl LimitsSection {
    pub open spec fn is_default(&self) -> bool {
        self.max_connections_per_token == 1 && self.max_total_connections == 10000
            && self.request_timeout_secs == 30
    }
}

impl HeartbeatSection {
    pub open spec fn is_default(&self) -> bool {
        self.interval_secs == 30 && self.timeout_secs == 10 && self.max_missed == 3
    }
}

impl OfflineResponseSection {
    pub open spec fn is_default(&self) -> bool {
        self.message@ == "The device is currently offline. Please try again later."@ && self.retry_after_secs
            == 30
    }
}

impl ServerConfig {
    /// Every section holds its defaults.
    pub open spec fn is_default(&self) -> bool {
        &&& self.server.is_default()
        &&& self.database.is_default()
        &&& self.clerk.is_default()
        &&& self.github.is_default()
        &&& self.tokens.is_default()
        &&& self.limits.is_default()
        &&& self.heartbeat.is_default()
        &&& self.offline_response.is_default()
    }
}

impl Default for GithubSection {
    fn default() -> (r: Self)
        ensures
            r.is_default(),
    {
        GithubSection { repo: None }
    }
}

impl Default for ClerkSection {
    fn default() -> (r: Self)
        ensures
            r.is_default(),
    {
        ClerkSection { enabled: false, domain: default_clerk_domain(), publishable_key: None }
    }
}

impl Default for DatabaseSection {
    fn default() -> (r: Self)
        ensures
            r.is_default(),
    {
        DatabaseSection { url: default_database_url() }
    }
}

impl Default for ServerSection {
    fn default() -> (r: Self)
        ensures
            r.is_default(),
    {
        ServerSection { ws_path: default_ws_path() }
    }
}

impl Default for TokensSection {
    fn default() -> (r: Self)
        ensures
            r.is_default(),
    {
        TokensSection { backend: default_token_backend(), file: None }
    }
}

impl Default for LimitsSection {
    fn default() -> (r: Self)
        ensures
            r.is_default(),
    {
        LimitsSection {
            max_connections_per_token: default_max_connections_per_token(),
            max_total_connections: default_max_total_connections(),
            request_timeout_secs: default_request_timeout_secs(),
        }
    }
}

impl Default for HeartbeatSection {
    fn default() -> (r: Self)
        ensures
            r.is_default(),
    {
        HeartbeatSection {
            interval_secs: default_heartbeat_interval(),
            timeout_secs: default_heartbeat_timeout(),
            max_missed: default_max_missed(),
        }
    }
}

impl Default for OfflineResponseSection {
    fn default() -> (r: Self)
        ensures
            r.is_default(),
    {
        OfflineResponseSection { message: default_offline_message(), retry_after_secs: default_retry_after() }
    }
}

impl Default for ServerConfig {
    fn default() -> (r: Self)
        ensures
            r.is_default(),
    {
        ServerConfig {
            server: ServerSection::default(),
            database: DatabaseSection::default(),
            clerk: ClerkSection::default(),
            github: GithubSection::default(),
            tokens: TokensSection::default(),
            limits: LimitsSection::default(),
            heartbeat: HeartbeatSection::default(),
            offline_response: OfflineResponseSection::default(),
        }
    }
}

impl LimitsSection {
    /// The timeout given to a device for a forwarded request, in milliseconds.
    pub fn request_timeout_ms(&self) -> (ms: u64)
        requires
            self.request_timeout_secs * 1000 <= u64::MAX,
        ensures
            ms == self.request_timeout_secs * 1000,
    {
        self.request_timeout_secs * 1000
    }
}

} // verus!
