//! Transport configuration: the settings a client is built from, their
//! defaults, the builder that overrides them one by one, and the merge of
//! values taken from the environment.

use std::time::Duration;
use vstd::prelude::*;

use crate::text::{optional_text, parse_u32, parse_u64, parse_unsigned, str_eq};

verus! {

/// The root of the production API.
pub const DEFAULT_BASE_URL: &'static str = "https://api.hyperliquid.xyz";

/// The user agent that a client sends unless it is told otherwise.
pub const DEFAULT_USER_AGENT: &'static str = "hyperliquid-rust-client/0.1.0";

/// The environment variable that overrides the base URL.
pub const ENV_BASE_URL: &'static str = "HYPERLIQUID_BASE_URL";

/// The environment variable that overrides the timeout, in whole seconds.
pub const ENV_TIMEOUT_SECS: &'static str = "HYPERLIQUID_TIMEOUT_SECS";

/// The environment variable that overrides the retry budget.
pub const ENV_MAX_RETRIES: &'static str = "HYPERLIQUID_MAX_RETRIES";

/// The environment variable that switches compression on or off.
pub const ENV_ENABLE_COMPRESSION: &'static str = "HYPERLIQUID_ENABLE_COMPRESSION";

/// The environment variable that overrides the user agent.
pub const ENV_USER_AGENT: &'static str = "HYPERLIQUID_USER_AGENT";

/// The duration of `secs` whole seconds.
pub uninterp spec fn seconds(secs: u64) -> Duration;

/// `Duration::from_secs` makes the duration of that many whole seconds, the
/// same one for the same number.
pub assume_specification[ Duration::from_secs ](secs: u64) -> (duration: Duration)
    ensures
        duration == seconds(secs),
;

/// A `Duration` is copied bit by bit, so its clone is the duration itself.
pub assume_specification[ <Duration as Clone>::clone ](duration: &Duration) -> (copy: Duration)
    ensures
        copy == *duration,
;

/// The lowercase form of a text as Unicode defines it.
pub uninterp spec fn lowercase(text: Seq<char>) -> Seq<char>;

/// Calls `str::to_lowercase`, which maps a text to its lowercase form
/// according to Unicode; the result depends on the text alone.
#[verifier::external_body]
fn to_lowercase(text: &str) -> (lowered: String)
    ensures
        lowered@ == lowercase(text@),
{
    text.to_lowercase()
}

/// The settings of the transport. A configuration is made once and then
/// only read.
#[derive(Debug, Clone)]
pub struct HyperLiquidConfig {
    /// The root of the API; requests go to `{base_url}/info`.
    pub base_url: String,
    /// The longest a request may take.
    pub timeout: Duration,
    /// How many times a call may send again after its first attempt.
    pub max_retries: u32,
    /// Whether compressed responses are asked for.
    pub enable_compression: bool,
    /// The user agent sent with every request.
    pub user_agent: String,
    /// The most idle connections kept per host.
    pub pool_max_idle_per_host: usize,
    /// How long an idle connection is kept.
    pub pool_idle_timeout: Duration,
    /// The interval of TCP keep-alive probes.
    pub tcp_keepalive: Duration,
}

/// A `HyperLiquidConfig` with its texts as character sequences.
pub struct HyperLiquidConfigView {
    pub base_url: Seq<char>,
    pub timeout: Duration,
    pub max_retries: u32,
    pub enable_compression: bool,
    pub user_agent: Seq<char>,
    pub pool_max_idle_per_host: usize,
    pub pool_idle_timeout: Duration,
    pub tcp_keepalive: Duration,
}

impl View for HyperLiquidConfig {
    type V = HyperLiquidConfigView;

    open spec fn view(&self) -> HyperLiquidConfigView {
        HyperLiquidConfigView {
            base_url: self.base_url@,
            timeout: self.timeout,
            max_retries: self.max_retries,
            enable_compression: self.enable_compression,
            user_agent: self.user_agent@,
            pool_max_idle_per_host: self.pool_max_idle_per_host,
            pool_idle_timeout: self.pool_idle_timeout,
            tcp_keepalive: self.tcp_keepalive,
        }
    }
}

/// The raw values of the recognised environment variables, each as far as
/// it is set.
#[derive(Debug, Clone)]
pub struct EnvOverrides {
    /// The value of `HYPERLIQUID_BASE_URL`.
    pub base_url: Option<String>,
    /// The value of `HYPERLIQUID_TIMEOUT_SECS`.
    pub timeout_secs: Option<String>,
    /// The value of `HYPERLIQUID_MAX_RETRIES`.
    pub max_retries: Option<String>,
    /// The value of `HYPERLIQUID_ENABLE_COMPRESSION`.
    pub enable_compression: Option<String>,
    /// The value of `HYPERLIQUID_USER_AGENT`.
    pub user_agent: Option<String>,
}

/// An `EnvOverrides` with its texts as character sequences.
pub struct EnvOverridesView {
    pub base_url: Option<Seq<char>>,
    pub timeout_secs: Option<Seq<char>>,
    pub max_retries: Option<Seq<char>>,
    pub enable_compression: Option<Seq<char>>,
    pub user_agent: Option<Seq<char>>,
}

impl View for EnvOverrides {
    type V = EnvOverridesView;

    open spec fn view(&self) -> EnvOverridesView {
        EnvOverridesView {
            base_url: optional_text(self.base_url),
            timeout_secs: optional_text(self.timeout_secs),
            max_retries: optional_text(self.max_retries),
            enable_compression: optional_text(self.enable_compression),
            user_agent: optional_text(self.user_agent),
        }
    }
}

impl EnvOverridesView {
    /// No variable is set.
    pub open spec fn none() -> EnvOverridesView {
        EnvOverridesView {
            base_url: None,
            timeout_secs: None,
            max_retries: None,
            enable_compression: None,
            user_agent: None,
        }
    }
}

/// The text `raw` if it is there, else `current`.
pub open spec fn text_or(raw: Option<Seq<char>>, current: Seq<char>) -> Seq<char> {
    match raw {
        Some(text) => text,
        None => current,
    }
}

/// The timeout after a merge: the whole seconds that `raw` spells, or
/// `current` where `raw` is absent or is no number of 64 bits.
pub open spec fn timeout_or(raw: Option<Seq<char>>, current: Duration) -> Duration {
    match raw {
        Some(text) => match parse_unsigned(text, u64::MAX as nat) {
            Some(secs) => seconds(secs as u64),
            None => current,
        },
        None => current,
    }
}

/// The retry budget after a merge: the number that `raw` spells, or
/// `current` where `raw` is absent or is no number of 32 bits.
pub open spec fn retries_or(raw: Option<Seq<char>>, current: u32) -> u32 {
    match raw {
        Some(text) => match parse_unsigned(text, u32::MAX as nat) {
            Some(retries) => retries as u32,
            None => current,
        },
        None => current,
    }
}

/// A lowercased flag value switches compression on if it reads `true`.
pub open spec fn flag_is_on(lowered: Seq<char>) -> bool {
    lowered == "true"@
}

/// The compression switch after a merge: on if `raw` reads `true` in any
/// mix of upper and lower case, off for any other text, and `current`
/// where `raw` is absent.
pub open spec fn compression_or(raw: Option<Seq<char>>, current: bool) -> bool {
    match raw {
        Some(text) => flag_is_on(lowercase(text)),
        None => current,
    }
}

impl HyperLiquidConfigView {
    /// The defaults: the production API, 30 s timeout, 3 retries,
    /// compression on, 10 idle connections per host kept for 90 s, and
    /// keep-alive probes every 60 s.
    pub open spec fn defaults() -> HyperLiquidConfigView {
        HyperLiquidConfigView {
            base_url: DEFAULT_BASE_URL@,
            timeout: seconds(30),
            max_retries: 3,
            enable_compression: true,
            user_agent: DEFAULT_USER_AGENT@,
            pool_max_idle_per_host: 10,
            pool_idle_timeout: seconds(90),
            tcp_keepalive: seconds(60),
        }
    }

    /// This configuration with every variable of `env` merged in that is
    /// set and can be read; the pool settings are not touched.
    pub open spec fn merged(self, env: EnvOverridesView) -> HyperLiquidConfigView {
        HyperLiquidConfigView {
            base_url: text_or(env.base_url, self.base_url),
            timeout: timeout_or(env.timeout_secs, self.timeout),
            max_retries: retries_or(env.max_retries, self.max_retries),
            enable_compression: compression_or(env.enable_compression, self.enable_compression),
            user_agent: text_or(env.user_agent, self.user_agent),
            pool_max_idle_per_host: self.pool_max_idle_per_host,
            pool_idle_timeout: self.pool_idle_timeout,
            tcp_keepalive: self.tcp_keepalive,
        }
    }
}

impl Default for HyperLiquidConfig {
    fn default() -> (config: HyperLiquidConfig)
        ensures
            config@ == HyperLiquidConfigView::defaults(),
    {
        HyperLiquidConfig {
            base_url: String::from_str(DEFAULT_BASE_URL),
            timeout: Duration::from_secs(30),
            max_retries: 3,
            enable_compression: true,
            user_agent: String::from_str(DEFAULT_USER_AGENT),
            pool_max_idle_per_host: 10,
            pool_idle_timeout: Duration::from_secs(90),
            tcp_keepalive: Duration::from_secs(60),
        }
    }
}

/// Tells whether a lowercased flag value switches compression on.
pub fn compression_flag(lowered: &str) -> (on: bool)
    ensures
        on == flag_is_on(lowered@),
{
    str_eq(lowered, "true")
}

impl HyperLiquidConfig {
    /// The default configuration.
    pub fn new() -> (config: HyperLiquidConfig)
        ensures
            config@ == HyperLiquidConfigView::defaults(),
    {
        HyperLiquidConfig::default()
    }

    /// This configuration with another base URL.
    pub fn with_base_url(self, base_url: &str) -> (config: HyperLiquidConfig)
        ensures
            config@ == (HyperLiquidConfigView { base_url: base_url@, ..self@ }),
    {
        let mut config = self;
        config.base_url = String::from_str(base_url);
        config
    }

    /// This configuration with another timeout.
    pub fn with_timeout(self, timeout: Duration) -> (config: HyperLiquidConfig)
        ensures
            config@ == (HyperLiquidConfigView { timeout, ..self@ }),
    {
        let mut config = self;
        config.timeout = timeout;
        config
    }

    /// This configuration with another retry budget.
    pub fn with_max_retries(self, max_retries: u32) -> (config: HyperLiquidConfig)
        ensures
            config@ == (HyperLiquidConfigView { max_retries, ..self@ }),
    {
        let mut config = self;
        config.max_retries = max_retries;
        config
    }

    /// This configuration with compression switched on or off.
    pub fn with_compression(self, enable_compression: bool) -> (config: HyperLiquidConfig)
        ensures
            config@ == (HyperLiquidConfigView { enable_compression, ..self@ }),
    {
        let mut config = self;
        config.enable_compression = enable_compression;
        config
    }

    /// This configuration with another user agent.
    pub fn with_user_agent(self, user_agent: &str) -> (config: HyperLiquidConfig)
        ensures
            config@ == (HyperLiquidConfigView { user_agent: user_agent@, ..self@ }),
    {
        let mut config = self;
        config.user_agent = String::from_str(user_agent);
        config
    }

    /// Merges the values of the environment into this configuration. A
    /// variable that is not set, or whose value cannot be read, leaves its
    /// setting as it is; the merge never fails.
    pub fn with_env(self, env: &EnvOverrides) -> (config: HyperLiquidConfig)
        ensures
            config@ == self@.merged(env@),
    {
        let mut config = self;
        match &env.base_url {
            Some(base_url) => {
                config.base_url = base_url.clone();
            },
            None => {},
        }
        match &env.timeout_secs {
            Some(text) => match parse_u64(text.as_str()) {
                Some(secs) => {
                    config.timeout = Duration::from_secs(secs);
                },
                None => {},
            },
            None => {},
        }
        match &env.max_retries {
            Some(text) => match parse_u32(text.as_str()) {
                Some(retries) => {
                    config.max_retries = retries;
                },
                None => {},
            },
            None => {},
        }
        match &env.enable_compression {
            Some(text) => {
                let lowered = to_lowercase(text.as_str());
                config.enable_compression = compression_flag(lowered.as_str());
            },
            None => {},
        }
        match &env.user_agent {
            Some(user_agent) => {
                config.user_agent = user_agent.clone();
            },
            None => {},
        }
        config
    }

    /// The default configuration with the values of the environment merged in.
    pub fn from_env_values(env: &EnvOverrides) -> (config: HyperLiquidConfig)
        ensures
            config@ == HyperLiquidConfigView::defaults().merged(env@),
    {
        HyperLiquidConfig::default().with_env(env)
    }
}

/// An environment in which no variable is set changes nothing.
pub proof fn law_empty_env_changes_nothing(config: HyperLiquidConfigView)
    ensures
        config.merged(EnvOverridesView::none()) == config,
{
}

/// A variable whose value cannot be read leaves its setting as it is, and
/// a variable that can be read wins over the setting whatever that was.
pub proof fn law_env_merge_is_field_by_field(
    config: HyperLiquidConfigView,
    env: EnvOverridesView,
)
    ensures
        env.timeout_secs is Some && parse_unsigned(env.timeout_secs->0, u64::MAX as nat) is None
            ==> config.merged(env).timeout == config.timeout,
        env.max_retries is Some && parse_unsigned(env.max_retries->0, u32::MAX as nat) is None
            ==> config.merged(env).max_retries == config.max_retries,
        env.max_retries is Some && parse_unsigned(env.max_retries->0, u32::MAX as nat) is Some
            ==> config.merged(env).max_retries == parse_unsigned(
            env.max_retries->0,
            u32::MAX as nat,
        )->0,
        env.base_url is Some ==> config.merged(env).base_url == env.base_url->0,
        env.user_agent is Some ==> config.merged(env).user_agent == env.user_agent->0,
        config.merged(env).pool_max_idle_per_host == config.pool_max_idle_per_host,
        config.merged(env).pool_idle_timeout == config.pool_idle_timeout,
        config.merged(env).tcp_keepalive == config.tcp_keepalive,
{
}

} // verus!
