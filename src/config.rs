use vstd::prelude::*;

verus! {

/// Value of an ASCII decimal digit.
pub open spec fn digit_value(c: char) -> nat {
    if '0' <= c <= '9' {
        (c as u32 - '0' as u32) as nat
    } else {
        0
    }
}

/// Value of a run of decimal digits.
pub open spec fn digits_value(s: Seq<char>) -> nat
    decreases s.len(),
{
    if s.len() == 0 {
        0
    } else {
        digits_value(s.drop_last()) * 10 + digit_value(s.last())
    }
}

pub open spec fn all_digits(s: Seq<char>) -> bool {
    forall|i: int| 0 <= i < s.len() ==> '0' <= #[trigger] s[i] <= '9'
}

/// The number an unsigned decimal text denotes: an optional `+`, then one or
/// more ASCII digits, nothing else.
pub open spec fn unsigned_text_value(s: Seq<char>) -> Option<nat> {
    let d = if s.len() > 0 && s[0] == '+' {
        s.subrange(1, s.len() as int)
    } else {
        s
    };
    if d.len() > 0 && all_digits(d) {
        Some(digits_value(d))
    } else {
        None
    }
}

/// Relies on `<u64 as FromStr>::from_str`: it accepts exactly an optional `+`
/// followed by decimal digits whose value fits in a `u64`.
#[verifier::external_body]
fn parse_u64(s: &str) -> (r: Option<u64>)
    ensures
        match unsigned_text_value(s@) {
            Some(v) => if v <= u64::MAX {
                r == Some(v as u64)
            } else {
                r is None
            },
            None => r is None,
        },
{
    s.parse::<u64>().ok()
}

/// Relies on `<u16 as FromStr>::from_str`: it accepts exactly an optional `+`
/// followed by decimal digits whose value fits in a `u16`.
#[verifier::external_body]
fn parse_u16(s: &str) -> (r: Option<u16>)
    ensures
        match unsigned_text_value(s@) {
            Some(v) => if v <= u16::MAX {
                r == Some(v as u16)
            } else {
                r is None
            },
            None => r is None,
        },
{
    s.parse::<u16>().ok()
}

/// Runtime settings of the gateway.
#[derive(Clone, Debug)]
pub struct Config {
    pub upstream_base_url: Option<String>,
    pub redis_url: String,
    pub batch_window_secs: u64,
    pub batch_poll_interval_secs: u64,
    pub server_host: String,
    pub server_port: u16,
    pub tcp_keepalive_secs: u64,
}

/// A setting that was given but does not hold a valid number.
#[derive(Clone, Debug)]
pub enum ConfigError {
    InvalidNumber { name: String, value: String },
}

/// The number a setting holds: its default when absent, else its text read
/// as an unsigned decimal number that must fit in `max`.
pub open spec fn setting_value(given: Option<String>, default: int, max: int) -> Option<int> {
    match given {
        None => Some(default),
        Some(t) => match unsigned_text_value(t@) {
            Some(v) => if v <= max {
                Some(v as int)
            } else {
                None
            },
            None => None,
        },
    }
}

fn u64_setting(name: &str, given: Option<String>, default: u64) -> (r: Result<u64, ConfigError>)
    ensures
        match setting_value(given, default as int, u64::MAX as int) {
            Some(v) => r == Ok::<u64, ConfigError>(v as u64),
            None => r is Err,
        },
{
    match given {
        None => Ok(default),
        Some(t) => match parse_u64(t.as_str()) {
            Some(v) => Ok(v),
            None => Err(ConfigError::InvalidNumber { name: String::from_str(name), value: t }),
        },
    }
}

fn u16_setting(name: &str, given: Option<String>, default: u16) -> (r: Result<u16, ConfigError>)
    ensures
        match setting_value(given, default as int, u16::MAX as int) {
            Some(v) => r == Ok::<u16, ConfigError>(v as u16),
            None => r is Err,
        },
{
    match given {
        None => Ok(default),
        Some(t) => match parse_u16(t.as_str()) {
            Some(v) => Ok(v),
            None => Err(ConfigError::InvalidNumber { name: String::from_str(name), value: t }),
        },
    }
}

fn text_or(given: Option<String>, default: &str) -> (r: String)
    ensures
        match given {
            Some(t) => r@ == t@,
            None => r@ == default@,
        },
{
    match given {
        Some(t) => t,
        None => String::from_str(default),
    }
}

pub open spec fn default_upstream_base_url() -> Seq<char> {
    "https://api.openai.com/v1"@
}

impl Config {
    /// Builds the settings from the values found in the environment (`None`
    /// where a variable is unset), applying the documented defaults.
    /// Fails exactly when a numeric setting is present but not a valid number
    /// of its type.
    pub fn from_values(
        upstream_base_url: Option<String>,
        redis_url: Option<String>,
        batch_window_secs: Option<String>,
        batch_poll_interval_secs: Option<String>,
        server_host: Option<String>,
        server_port: Option<String>,
        tcp_keepalive_secs: Option<String>,
    ) -> (r: Result<Config, ConfigError>)
        ensures
            r is Ok <==> (setting_value(batch_window_secs, 60, u64::MAX as int) is Some
                && setting_value(batch_poll_interval_secs, 60, u64::MAX as int) is Some
                && setting_value(server_port, 8080, u16::MAX as int) is Some
                && setting_value(tcp_keepalive_secs, 60, u64::MAX as int) is Some),
            r matches Ok(c) ==> {
                &&& c.upstream_base_url == upstream_base_url
                &&& c.redis_url@ == match redis_url {
                    Some(t) => t@,
                    None => "redis://127.0.0.1:6379"@,
                }
                &&& c.server_host@ == match server_host {
                    Some(t) => t@,
                    None => "0.0.0.0"@,
                }
                &&& Some(c.batch_window_secs as int) == setting_value(batch_window_secs, 60, u64::MAX as int)
                &&& Some(c.batch_poll_interval_secs as int) == setting_value(
                    batch_poll_interval_secs,
                    60,
                    u64::MAX as int,
                )
                &&& Some(c.server_port as int) == setting_value(server_port, 8080, u16::MAX as int)
                &&& Some(c.tcp_keepalive_secs as int) == setting_value(tcp_keepalive_secs, 60, u64::MAX as int)
            },
    {
        let window = match u64_setting("BATCH_WINDOW_SECS", batch_window_secs, 60) {
            Ok(v) => v,
            Err(e) => return Err(e),
        };
        let poll = match u64_setting("BATCH_POLL_INTERVAL_SECS", batch_poll_interval_secs, 60) {
            Ok(v) => v,
            Err(e) => return Err(e),
        };
        let port = match u16_setting("SERVER_PORT", server_port, 8080) {
            Ok(v) => v,
            Err(e) => return Err(e),
        };
        let keepalive = match u64_setting("TCP_KEEPALIVE_SECS", tcp_keepalive_secs, 60) {
            Ok(v) => v,
            Err(e) => return Err(e),
        };
        Ok(Config {
            upstream_base_url,
            redis_url: text_or(redis_url, "redis://127.0.0.1:6379"),
            batch_window_secs: window,
            batch_poll_interval_secs: poll,
            server_host: text_or(server_host, "0.0.0.0"),
            server_port: port,
            tcp_keepalive_secs: keepalive,
        })
    }

    /// Root of the upstream API: the configured one, else the public default.
    pub fn upstream_base(&self) -> (r: String)
        ensures
            match self.upstream_base_url {
                Some(u) => r@ == u@,
                None => r@ == default_upstream_base_url(),
            },
    {
        match &self.upstream_base_url {
            Some(u) => u.clone(),
            None => String::from_str("https://api.openai.com/v1"),
        }
    }
}

} // verus!
