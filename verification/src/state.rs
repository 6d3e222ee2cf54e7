use vstd::prelude::*;
use crate::routing::{GatewayConfig, GatewayConfigView, ServerStatus};

verus! {

/// What the gateway knows at a moment: its configuration and which backends
/// answered the last health check.
pub struct GatewayState {
    config: GatewayConfig,
    status: ServerStatus,
}

pub struct GatewayStateView {
    pub config: GatewayConfigView,
    pub status: ServerStatus,
}

impl GatewayStateView {
    /// The state after a configuration fetch: a fetched configuration
    /// replaces the old one, a failed fetch leaves the state as it was.
    pub open spec fn after_fetch(self, fetched: Option<GatewayConfigView>) -> GatewayStateView {
        match fetched {
            Some(c) => GatewayStateView { config: c, ..self },
            None => self,
        }
    }

    /// The state after a health check found the backends as given.
    pub open spec fn after_check(self, primary_online: bool, canary_online: bool) -> GatewayStateView {
        GatewayStateView { status: ServerStatus { primary_online, canary_online }, ..self }
    }
}

pub open spec fn config_views(c: Option<GatewayConfig>) -> Option<GatewayConfigView> {
    match c {
        Some(c) => Some(c@),
        None => None,
    }
}

impl View for GatewayState {
    type V = GatewayStateView;

    closed spec fn view(&self) -> GatewayStateView {
        GatewayStateView { config: self.config@, status: self.status }
    }
}

impl GatewayState {
    /// The state before anything is loaded: an empty configuration with no
    /// canary traffic, and both backends offline.
    pub fn new() -> (s: GatewayState)
        ensures
            s@.config.primary_addr == Seq::<char>::empty(),
            s@.config.canary_addr == Seq::<char>::empty(),
            s@.config.canary_percentage == 0,
            !s@.status.primary_online,
            !s@.status.canary_online,
    {
        GatewayState { config: GatewayConfig::empty(), status: ServerStatus::offline() }
    }

    /// Takes in the outcome of a configuration fetch: `None` when the fetch,
    /// or the parsing of what it brought, failed.
    pub fn update_config(&mut self, fetched: Option<GatewayConfig>)
        ensures
            final(self)@ == old(self)@.after_fetch(config_views(fetched)),
    {
        match fetched {
            Some(c) => {
                self.config = c;
            },
            None => {},
        }
    }

    /// Takes in the outcome of a health check of both backends.
    pub fn update_server_status(&mut self, primary_online: bool, canary_online: bool)
        ensures
            final(self)@ == old(self)@.after_check(primary_online, canary_online),
    {
        self.status = ServerStatus { primary_online, canary_online };
    }

    /// The current configuration.
    pub fn get_config(&self) -> (c: GatewayConfig)
        ensures
            c@ == self@.config,
    {
        self.config.clone()
    }

    /// The current backend status.
    pub fn get_server_status(&self) -> (s: ServerStatus)
        ensures
            s == self@.status,
    {
        self.status
    }
}

/// A fetched configuration is the one read afterwards; a failed fetch
/// changes nothing; a health check leaves the configuration alone.
pub proof fn law_config_read_after_update(
    s: GatewayStateView,
    c: GatewayConfigView,
    primary_online: bool,
    canary_online: bool,
)
    ensures
        s.after_fetch(Some(c)).config == c,
        s.after_fetch(Some(c)).status == s.status,
        s.after_fetch(None) == s,
        s.after_check(primary_online, canary_online).config == s.config,
        s.after_check(primary_online, canary_online).status == (ServerStatus {
            primary_online,
            canary_online,
        }),
{
}

#[verifier::external_type_specification]
#[verifier::external_body]
pub struct ExRedisClient(redis::Client);

#[verifier::external_type_specification]
#[verifier::external_body]
pub struct ExRedisError(redis::RedisError);

/// Whether `redis::Client::open` accepts a URL.
pub uninterp spec fn redis_url_accepted(url: Seq<char>) -> bool;

/// A Redis client for `url`; no connection is opened yet.
///
/// Trusted: calls redis's `Client::open` on the URL. It only parses the URL
/// into connection information and opens no connection; whether it succeeds
/// is named by `redis_url_accepted`. Which error it gives is not stated. For
/// `unix` URLs the answer also depends on the platform the gateway is built
/// for, which is one for a given build.
#[verifier::external_body]
fn open_redis_client(url: &str) -> (r: Result<redis::Client, redis::RedisError>)
    ensures
        r is Ok <==> redis_url_accepted(url@),
{
    redis::Client::open(url)
}

/// A Redis client for the host URL of the direct proxy; an error when the
/// URL is not one that Redis accepts.
pub fn init_redis_client(redis_host: &str) -> (r: Result<redis::Client, redis::RedisError>)
    ensures
        r is Ok <==> redis_url_accepted(redis_host@),
{
    open_redis_client(redis_host)
}

/// What the gateway starts with: a Redis client for `redis_url` and the state
/// before anything is loaded; nothing when Redis does not accept the URL.
pub fn open_gateway(redis_url: &str) -> (r: Option<(redis::Client, GatewayState)>)
    ensures
        r is Some <==> redis_url_accepted(redis_url@),
        r matches Some(p) ==> {
            &&& p.1@.config.primary_addr == Seq::<char>::empty()
            &&& p.1@.config.canary_addr == Seq::<char>::empty()
            &&& p.1@.config.canary_percentage == 0
            &&& !p.1@.status.primary_online
            &&& !p.1@.status.canary_online
        },
{
    match open_redis_client(redis_url) {
        Ok(client) => Some((client, GatewayState::new())),
        Err(_) => None,
    }
}

} // verus!
