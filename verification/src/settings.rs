use vstd::prelude::*;
use crate::number::{parse_u64, parse_u64_spec};
use crate::text::chars_of;

verus! {

/// Why the environment does not make a usable configuration.
#[derive(Clone, Copy, Debug, PartialEq, Eq, Structural)]
pub enum SettingsError {
    /// `REDIS_URL` is not set.
    MissingRedisUrl,
    /// `CONFIG_UPDATE_INTERVAL` is not a number of seconds.
    InvalidConfigUpdateInterval,
    /// `STATUS_UPDATE_INTERVAL` is not a number of seconds.
    InvalidStatusUpdateInterval,
    /// `REDIS_HOST` is not set.
    MissingRedisHost,
}

/// The settings the gateway runs with.
pub struct EnvConfig {
    pub redis_url: String,
    pub config_update_interval_secs: u64,
    pub status_update_interval_secs: u64,
}

/// The seconds between two runs of a periodic task, as set by an
/// environment variable, 10 when it is not set; `None` when it is set to
/// something other than a number.
pub open spec fn interval_spec(value: Option<Seq<char>>) -> Option<u64> {
    match value {
        Some(t) => parse_u64_spec(t),
        None => parse_u64_spec("10"@),
    }
}

fn interval(value: &Option<String>) -> (r: Option<u64>)
    ensures
        r == interval_spec(match value {
            Some(t) => Some(t@),
            None => None,
        }),
{
    let text = match value {
        Some(t) => chars_of(t.as_str()),
        None => chars_of("10"),
    };
    parse_u64(&text)
}

/// Builds the settings from the values of `REDIS_URL`,
/// `CONFIG_UPDATE_INTERVAL` and `STATUS_UPDATE_INTERVAL` (`None` for a
/// variable that is not set), checked in that order.
pub fn init_env(
    redis_url: Option<String>,
    config_update_interval: Option<String>,
    status_update_interval: Option<String>,
) -> (r: Result<EnvConfig, SettingsError>)
    ensures
        redis_url is None ==> r == Err::<EnvConfig, SettingsError>(SettingsError::MissingRedisUrl),
        redis_url is Some && interval_spec(match config_update_interval {
            Some(t) => Some(t@),
            None => None,
        }) is None ==> r == Err::<EnvConfig, SettingsError>(
            SettingsError::InvalidConfigUpdateInterval,
        ),
        redis_url is Some && interval_spec(match config_update_interval {
            Some(t) => Some(t@),
            None => None,
        }) is Some && interval_spec(match status_update_interval {
            Some(t) => Some(t@),
            None => None,
        }) is None ==> r == Err::<EnvConfig, SettingsError>(
            SettingsError::InvalidStatusUpdateInterval,
        ),
        r is Ok <==> redis_url is Some && interval_spec(match config_update_interval {
            Some(t) => Some(t@),
            None => None,
        }) is Some && interval_spec(match status_update_interval {
            Some(t) => Some(t@),
            None => None,
        }) is Some,
        r matches Ok(e) ==> {
            &&& redis_url matches Some(u) && e.redis_url@ == u@
            &&& Some(e.config_update_interval_secs) == interval_spec(match config_update_interval {
                Some(t) => Some(t@),
                None => None,
            })
            &&& Some(e.status_update_interval_secs) == interval_spec(match status_update_interval {
                Some(t) => Some(t@),
                None => None,
            })
        },
{
    let url = match redis_url {
        Some(u) => u,
        None => {
            return Err(SettingsError::MissingRedisUrl);
        },
    };
    let config_secs = match interval(&config_update_interval) {
        Some(n) => n,
        None => {
            return Err(SettingsError::InvalidConfigUpdateInterval);
        },
    };
    let status_secs = match interval(&status_update_interval) {
        Some(n) => n,
        None => {
            return Err(SettingsError::InvalidStatusUpdateInterval);
        },
    };
    Ok(
        EnvConfig {
            redis_url: url,
            config_update_interval_secs: config_secs,
            status_update_interval_secs: status_secs,
        },
    )
}

/// The Redis host and key from the values of `REDIS_HOST` and `REDIS_KEY`;
/// the key is `gateway_config` when `REDIS_KEY` is not set.
pub fn load_env(redis_host: Option<String>, redis_key: Option<String>) -> (r: Result<
    (String, String),
    SettingsError,
>)
    ensures
        redis_host is None ==> r == Err::<(String, String), SettingsError>(
            SettingsError::MissingRedisHost,
        ),
        redis_host matches Some(h) ==> r matches Ok(p) && p.0@ == h@ && p.1@ == (match redis_key {
            Some(k) => k@,
            None => "gateway_config"@,
        }),
{
    let host = match redis_host {
        Some(h) => h,
        None => {
            return Err(SettingsError::MissingRedisHost);
        },
    };
    Ok((host, redis_key_or_default(redis_key)))
}

/// The Redis key that holds the configuration: the value of `REDIS_KEY`, or
/// `gateway_config` when it is not set.
pub fn redis_key_or_default(redis_key: Option<String>) -> (k: String)
    ensures
        k@ == (match redis_key {
            Some(k) => k@,
            None => "gateway_config"@,
        }),
{
    match redis_key {
        Some(k) => k,
        None => "gateway_config".to_owned(),
    }
}

} // verus!
