//! The client handle: one pooled HTTP client built from a configuration,
//! together with the base URL and the configuration it was built from.
//! Clones of a handle share the pool and the configuration.

use std::sync::Arc;
use std::time::Duration;
use vstd::prelude::*;

use crate::common::{info_url, INFO_PATH};
use crate::config::{EnvOverrides, HyperLiquidConfig, HyperLiquidConfigView};
use crate::errors::{HyperLiquidError, HyperLiquidErrorView};
use crate::retry::RetryPolicy;

verus! {

/// The pooled HTTP client of `reqwest`.
#[verifier::external_type_specification]
#[verifier::external_body]
pub struct ExHttpClient(reqwest::Client);

/// A clone of a `reqwest::Client` is a second handle on the same pool.
pub assume_specification[ <reqwest::Client as Clone>::clone ](client: &reqwest::Client) -> (copy:
    reqwest::Client)
;

/// What the HTTP client is built with.
#[derive(Debug)]
pub struct ConnectionSettings {
    /// The longest a request may take.
    pub timeout: Duration,
    /// The user agent sent with every request.
    pub user_agent: String,
    /// The most idle connections kept per host.
    pub pool_max_idle_per_host: usize,
    /// How long an idle connection is kept.
    pub pool_idle_timeout: Duration,
    /// The interval of TCP keep-alive probes.
    pub tcp_keepalive: Duration,
    /// Whether small packets are sent at once.
    pub tcp_nodelay: bool,
    /// Whether compressed responses are asked for and unpacked.
    pub gzip: bool,
}

impl HyperLiquidConfig {
    /// The settings of the HTTP client for this configuration: its
    /// timeouts, user agent and pool sizes as they are, no-delay always on,
    /// and compression as the configuration says.
    pub fn connection_settings(&self) -> (settings: ConnectionSettings)
        ensures
            settings.timeout == self.timeout,
            settings.user_agent@ == self.user_agent@,
            settings.pool_max_idle_per_host == self.pool_max_idle_per_host,
            settings.pool_idle_timeout == self.pool_idle_timeout,
            settings.tcp_keepalive == self.tcp_keepalive,
            settings.tcp_nodelay,
            settings.gzip == self.enable_compression,
    {
        ConnectionSettings {
            timeout: self.timeout,
            user_agent: self.user_agent.clone(),
            pool_max_idle_per_host: self.pool_max_idle_per_host,
            pool_idle_timeout: self.pool_idle_timeout,
            tcp_keepalive: self.tcp_keepalive,
            tcp_nodelay: true,
            gzip: self.enable_compression,
        }
    }

    /// The retry policy for this configuration.
    pub fn retry_policy(&self) -> (policy: RetryPolicy)
        ensures
            policy.max_retries == self.max_retries,
    {
        RetryPolicy::new(self.max_retries)
    }
}

/// Builds a `reqwest::Client` with the builder of that crate, handing it
/// each setting as it is. Whether the build succeeds depends on the
/// platform's TLS and socket setup, so nothing is promised of the result.
#[verifier::external_body]
fn build_http_client(settings: &ConnectionSettings) -> Result<reqwest::Client, reqwest::Error> {
    reqwest::Client::builder()
        .timeout(settings.timeout)
        .user_agent(settings.user_agent.as_str())
        .pool_max_idle_per_host(settings.pool_max_idle_per_host)
        .pool_idle_timeout(settings.pool_idle_timeout)
        .tcp_keepalive(settings.tcp_keepalive)
        .tcp_nodelay(settings.tcp_nodelay)
        .gzip(settings.gzip)
        .build()
}

/// A handle on the API: cheap to clone, and safe to use from many tasks.
#[derive(Clone)]
pub struct HyperLiquidClient {
    /// The pooled HTTP client.
    pub client: reqwest::Client,
    /// The root of the API.
    pub base_url: String,
    /// The configuration, shared by all clones.
    pub config: Arc<HyperLiquidConfig>,
}

impl HyperLiquidClient {
    /// A client with the default configuration.
    pub fn new() -> (result: Result<HyperLiquidClient, HyperLiquidError>)
        ensures
            result is Ok ==> result->Ok_0.base_url@ == HyperLiquidConfigView::defaults().base_url
                && result->Ok_0.config@ == HyperLiquidConfigView::defaults(),
            result is Err ==> result->Err_0@ is HttpError,
    {
        HyperLiquidClient::with_config(HyperLiquidConfig::default())
    }

    /// The handle for `config`, given what building the HTTP client for
    /// it gave: the handle around the client that was built, or the
    /// failure of the build as an HTTP error.
    pub fn assemble(
        config: HyperLiquidConfig,
        built: Result<reqwest::Client, reqwest::Error>,
    ) -> (result: Result<HyperLiquidClient, HyperLiquidError>)
        ensures
            match built {
                Ok(client) => result is Ok && result->Ok_0.client == client
                    && result->Ok_0.base_url@ == config.base_url@ && result->Ok_0.config@
                    == config@,
                Err(source) => result is Err && result->Err_0@
                    == HyperLiquidErrorView::HttpError(source),
            },
    {
        match built {
            Ok(client) => {
                let base_url = config.base_url.clone();
                Ok(HyperLiquidClient { client, base_url, config: Arc::new(config) })
            },
            Err(source) => Err(HyperLiquidError::HttpError(source)),
        }
    }

    /// A client for `config`. The only failure is that of the platform to
    /// set up the HTTP client; it is returned and never papered over.
    pub fn with_config(config: HyperLiquidConfig) -> (result: Result<
        HyperLiquidClient,
        HyperLiquidError,
    >)
        ensures
            result is Ok ==> result->Ok_0.base_url@ == config.base_url@ && result->Ok_0.config@
                == config@,
            result is Err ==> result->Err_0@ is HttpError,
    {
        let settings = config.connection_settings();
        let built = build_http_client(&settings);
        HyperLiquidClient::assemble(config, built)
    }

    /// A client for the default configuration with the values of the
    /// environment merged in.
    pub fn from_env_values(env: &EnvOverrides) -> (result: Result<
        HyperLiquidClient,
        HyperLiquidError,
    >)
        ensures
            result is Ok ==> result->Ok_0.config@ == HyperLiquidConfigView::defaults().merged(env@)
                && result->Ok_0.base_url@ == HyperLiquidConfigView::defaults().merged(
                env@,
            ).base_url,
            result is Err ==> result->Err_0@ is HttpError,
    {
        HyperLiquidClient::with_config(HyperLiquidConfig::from_env_values(env))
    }

    /// The address that this client posts to.
    pub fn info_url(&self) -> (url: String)
        ensures
            url@ == self.base_url@ + INFO_PATH@,
    {
        info_url(self.base_url.as_str())
    }

    /// The retry policy of this client.
    pub fn retry_policy(&self) -> (policy: RetryPolicy)
        ensures
            policy.max_retries == self.config@.max_retries,
    {
        self.config.retry_policy()
    }
}

} // verus!
