//! Configuring a client.
use std::time::Duration;
use tonic::transport::{Certificate, ClientTlsConfig};
use vstd::prelude::*;

use crate::client::auth::{self, ApiKeyInterceptor};
use crate::client::retry::{RetryPolicy, RetryPolicyView};
use crate::client::ClientError;
use crate::text;
use crate::time;

verus! {

/// The settings of an encrypted connection.
#[verifier::external_type_specification]
#[verifier::external_body]
pub struct ExClientTlsConfig(ClientTlsConfig);

/// `ClientTlsConfig::default` gives the settings to start from. What they are is
/// not stated.
pub assume_specification[ <ClientTlsConfig as Default>::default ]() -> ClientTlsConfig
;

/// What `ClientTlsConfig::with_native_roots` makes of settings.
pub uninterp spec fn tls_with_native_roots(tls: ClientTlsConfig) -> ClientTlsConfig;

/// What `ClientTlsConfig::ca_certificate` makes of settings and a PEM-encoded
/// certificate.
pub uninterp spec fn tls_with_ca(tls: ClientTlsConfig, pem: Seq<u8>) -> ClientTlsConfig;

/// What `ClientTlsConfig::domain_name` makes of settings and a name.
pub uninterp spec fn tls_with_domain(tls: ClientTlsConfig, domain: Seq<char>) -> ClientTlsConfig;

/// `ClientTlsConfig::with_native_roots` turns on the platform's trusted
/// certificates.
#[verifier::external_body]
fn native_roots(tls: ClientTlsConfig) -> (r: ClientTlsConfig)
    ensures
        r == tls_with_native_roots(tls),
{
    tls.with_native_roots()
}

/// `ClientTlsConfig::ca_certificate` adds a trusted certificate.
#[verifier::external_body]
fn ca_certificate(tls: ClientTlsConfig, pem: &[u8]) -> (r: ClientTlsConfig)
    ensures
        r == tls_with_ca(tls, pem@),
{
    tls.ca_certificate(Certificate::from_pem(pem))
}

/// `ClientTlsConfig::domain_name` sets the name that the server's certificate
/// is held against.
#[verifier::external_body]
fn domain_name(tls: ClientTlsConfig, domain: &str) -> (r: ClientTlsConfig)
    ensures
        r == tls_with_domain(tls, domain@),
{
    tls.domain_name(domain)
}

/// Whether these are the settings to change: the ones that are set, and default
/// ones where none are.
pub open spec fn starts_from(tls: Option<ClientTlsConfig>, settings: ClientTlsConfig) -> bool {
    match tls {
        Some(c) => settings == c,
        None => call_ensures(<ClientTlsConfig as Default>::default, (), settings),
    }
}

/// The settings to change: the ones that are set, and default ones where none
/// are.
fn tls_or_default(tls: Option<ClientTlsConfig>) -> (settings: ClientTlsConfig)
    ensures
        starts_from(tls, settings),
{
    match tls {
        Some(c) => c,
        None => ClientTlsConfig::default(),
    }
}

/// What a client under configuration holds.
pub struct SeppClientBuilderView {
    pub addr: Seq<char>,
    pub api_key: Option<Seq<char>>,
    pub retry_policy: RetryPolicyView,
    pub rpc_timeout: Duration,
    pub max_receive_message_bytes: Option<usize>,
    pub tls: Option<ClientTlsConfig>,
}

/// Configures a client.
///
/// Set an [`api_key`](Self::api_key), a [`retry_policy`](Self::retry_policy),
/// and TLS options, then connect with what [`prepare`](Self::prepare) yields.
pub struct SeppClientBuilder {
    addr: String,
    api_key: Option<String>,
    retry_policy: RetryPolicy,
    rpc_timeout: Duration,
    max_receive_message_bytes: Option<usize>,
    tls: Option<ClientTlsConfig>,
}

impl View for SeppClientBuilder {
    type V = SeppClientBuilderView;

    closed spec fn view(&self) -> SeppClientBuilderView {
        SeppClientBuilderView {
            addr: self.addr@,
            api_key: text::opt_text(self.api_key),
            retry_policy: self.retry_policy@,
            rpc_timeout: self.rpc_timeout,
            max_receive_message_bytes: self.max_receive_message_bytes,
            tls: self.tls,
        }
    }
}

/// What to connect with.
pub struct ConnectPlan {
    /// The address of the server.
    pub addr: String,
    /// What attaches the API key to each request.
    pub interceptor: ApiKeyInterceptor,
    /// The settings of an encrypted connection, if it is to be encrypted.
    pub tls: Option<ClientTlsConfig>,
    /// Whether an API key will travel in plaintext.
    pub plaintext_key: bool,
    /// The largest message to accept, where it is not the default.
    pub max_receive_message_bytes: Option<usize>,
    /// What the connected client goes by.
    pub client: SeppClient,
}

/// Whether a policy is the default one: one attempt, a backoff of 100ms that
/// doubles up to 10s, with jitter.
pub open spec fn is_default_policy(p: RetryPolicyView) -> bool {
    &&& p.max_attempts == 1
    &&& time::duration_nanos(p.initial_backoff) == 100_000_000
    &&& time::duration_nanos(p.max_backoff) == 10_000_000_000
    &&& p.multiplier.bits == crate::client::retry::TWO_BITS
    &&& p.jitter
}

impl SeppClientBuilder {
    /// Starts configuring a client for `addr`, with no authentication, no
    /// encryption, the default [`RetryPolicy`] and a deadline of 30 seconds.
    pub fn new(addr: &str) -> (r: Self)
        ensures
            r@.addr == addr@,
            r@.api_key is None,
            is_default_policy(r@.retry_policy),
            time::duration_nanos(r@.rpc_timeout) == 30_000_000_000,
            r@.max_receive_message_bytes is None,
            r@.tls is None,
    {
        SeppClientBuilder {
            addr: addr.to_owned(),
            api_key: None,
            retry_policy: RetryPolicy::default(),
            rpc_timeout: Duration::from_secs(30),
            max_receive_message_bytes: None,
            tls: None,
        }
    }

    /// Sends an `Authorization: Bearer <key>` header on every request.
    ///
    /// Without TLS the key travels in plaintext.
    pub fn api_key(self, key: &str) -> (r: Self)
        ensures
            r@ == (SeppClientBuilderView { api_key: Some(key@), ..self@ }),
    {
        SeppClientBuilder { api_key: Some(key.to_owned()), ..self }
    }

    /// Sets the [`RetryPolicy`] for transient failures. The default policy
    /// does not retry.
    pub fn retry_policy(self, policy: RetryPolicy) -> (r: Self)
        ensures
            r@ == (SeppClientBuilderView { retry_policy: policy@, ..self@ }),
    {
        SeppClientBuilder { retry_policy: policy, ..self }
    }

    /// Sets the per-call deadline for every call except reserve, whose deadline
    /// follows the requested wait timeout instead. Defaults to 30 seconds.
    ///
    /// Enqueuing very large batches may need a higher value.
    pub fn rpc_timeout(self, timeout: Duration) -> (r: Self)
        ensures
            r@ == (SeppClientBuilderView { rpc_timeout: timeout, ..self@ }),
    {
        SeppClientBuilder { rpc_timeout: timeout, ..self }
    }

    /// Sets the largest message this client accepts, replacing the default of
    /// 4 MiB.
    ///
    /// Workers should consider raising this: a reserve response can carry up
    /// to the server's `max_reserve_batch` times `max_payload_bytes`, which can
    /// exceed the default, and an oversized response fails client-side while
    /// its jobs stay leased until they expire.
    pub fn max_receive_message_bytes(self, bytes: usize) -> (r: Self)
        ensures
            r@ == (SeppClientBuilderView { max_receive_message_bytes: Some(bytes), ..self@ }),
    {
        SeppClientBuilder { max_receive_message_bytes: Some(bytes), ..self }
    }

    /// Enables TLS using the platform's native root certificates.
    pub fn tls(self) -> (r: Self)
        ensures
            exists|c: ClientTlsConfig| #[trigger]
                starts_from(self@.tls, c) && r@ == (SeppClientBuilderView {
                    tls: Some(tls_with_native_roots(c)),
                    ..self@
                }),
    {
        SeppClientBuilder {
            tls: Some(native_roots(tls_or_default(self.tls))),
            addr: self.addr,
            api_key: self.api_key,
            retry_policy: self.retry_policy,
            rpc_timeout: self.rpc_timeout,
            max_receive_message_bytes: self.max_receive_message_bytes,
        }
    }

    /// Enables TLS and trusts the given PEM-encoded CA certificate, e.g. for a
    /// private/self-signed server.
    pub fn tls_ca_certificate(self, pem: &[u8]) -> (r: Self)
        ensures
            exists|c: ClientTlsConfig| #[trigger]
                starts_from(self@.tls, c) && r@ == (SeppClientBuilderView {
                    tls: Some(tls_with_ca(c, pem@)),
                    ..self@
                }),
    {
        SeppClientBuilder {
            tls: Some(ca_certificate(tls_or_default(self.tls), pem)),
            addr: self.addr,
            api_key: self.api_key,
            retry_policy: self.retry_policy,
            rpc_timeout: self.rpc_timeout,
            max_receive_message_bytes: self.max_receive_message_bytes,
        }
    }

    /// Overrides the domain name verified against the server certificate, for
    /// when the connection address differs from the certificate's name.
    pub fn tls_domain(self, domain: &str) -> (r: Self)
        ensures
            exists|c: ClientTlsConfig| #[trigger]
                starts_from(self@.tls, c) && r@ == (SeppClientBuilderView {
                    tls: Some(tls_with_domain(c, domain@)),
                    ..self@
                }),
    {
        SeppClientBuilder {
            tls: Some(domain_name(tls_or_default(self.tls), domain)),
            addr: self.addr,
            api_key: self.api_key,
            retry_policy: self.retry_policy,
            rpc_timeout: self.rpc_timeout,
            max_receive_message_bytes: self.max_receive_message_bytes,
        }
    }

    /// Sets fully custom TLS settings, replacing any set by the other `tls_*`
    /// methods.
    pub fn tls_config(self, config: ClientTlsConfig) -> (r: Self)
        ensures
            r@ == (SeppClientBuilderView { tls: Some(config), ..self@ }),
    {
        SeppClientBuilder { tls: Some(config), ..self }
    }

    /// Returns the configured deadline of a call.
    pub fn configured_rpc_timeout(&self) -> (d: Duration)
        ensures
            d == self@.rpc_timeout,
    {
        self.rpc_timeout
    }

    /// Returns the configured largest message, where it is not the default.
    pub fn configured_max_receive_message_bytes(&self) -> (r: Option<usize>)
        ensures
            r == self@.max_receive_message_bytes,
    {
        self.max_receive_message_bytes
    }

    /// Whether the connection is to be encrypted.
    pub fn tls_enabled(&self) -> (r: bool)
        ensures
            r == self@.tls is Some,
    {
        self.tls.is_some()
    }

    /// What to connect with. An API key that cannot stand in a header is an
    /// error.
    pub fn prepare(self) -> (r: Result<ConnectPlan, ClientError>)
        ensures
            match r {
                Ok(plan) => {
                    &&& self@.api_key matches Some(key) ==> auth::is_header_text(key)
                    &&& plan.addr@ == self@.addr
                    &&& plan.interceptor@ == match self@.api_key {
                        Some(key) => Some("Bearer "@ + key),
                        None => None,
                    }
                    &&& plan.tls == self@.tls
                    &&& plan.plaintext_key == (self@.api_key is Some && self@.tls is None)
                    &&& plan.max_receive_message_bytes == self@.max_receive_message_bytes
                    &&& plan.client@ == (SeppClientView {
                        retry_policy: self@.retry_policy,
                        rpc_timeout: self@.rpc_timeout,
                    })
                },
                Err(e) => e is InvalidApiKey && (self@.api_key matches Some(key)
                    && !auth::is_header_text(key)),
            },
    {
        let interceptor = match &self.api_key {
            Some(key) => ApiKeyInterceptor::new(Some(key.as_str())),
            None => ApiKeyInterceptor::new(None),
        };
        let interceptor = match interceptor {
            Some(i) => i,
            None => {
                return Err(ClientError::InvalidApiKey);
            },
        };
        let plaintext_key = interceptor.is_enabled() && !self.tls.is_some();
        Ok(
            ConnectPlan {
                addr: self.addr,
                interceptor,
                tls: self.tls,
                plaintext_key,
                max_receive_message_bytes: self.max_receive_message_bytes,
                client: SeppClient {
                    retry_policy: self.retry_policy,
                    rpc_timeout: self.rpc_timeout,
                },
            },
        )
    }
}

/// What a client goes by.
pub struct SeppClientView {
    pub retry_policy: RetryPolicyView,
    pub rpc_timeout: Duration,
}

/// What a connected client goes by: its retry policy and the deadline of a
/// call.
#[derive(Debug)]
pub struct SeppClient {
    pub(crate) retry_policy: RetryPolicy,
    pub(crate) rpc_timeout: Duration,
}

impl View for SeppClient {
    type V = SeppClientView;

    closed spec fn view(&self) -> SeppClientView {
        SeppClientView { retry_policy: self.retry_policy@, rpc_timeout: self.rpc_timeout }
    }
}

impl Clone for SeppClient {
    fn clone(&self) -> (r: Self)
        ensures
            r@ == self@,
    {
        SeppClient { retry_policy: self.retry_policy.clone(), rpc_timeout: self.rpc_timeout }
    }
}

impl SeppClient {
    /// Starts building a client for `addr`, allowing authentication, TLS, and
    /// retry configuration before connecting.
    pub fn builder(addr: &str) -> (r: SeppClientBuilder)
        ensures
            r@.addr == addr@,
            r@.api_key is None,
            is_default_policy(r@.retry_policy),
            time::duration_nanos(r@.rpc_timeout) == 30_000_000_000,
            r@.max_receive_message_bytes is None,
            r@.tls is None,
    {
        SeppClientBuilder::new(addr)
    }

    /// What a client over an already established channel goes by: the default
    /// [`RetryPolicy`] and a deadline of 30 seconds.
    pub fn unconfigured() -> (r: Self)
        ensures
            is_default_policy(r@.retry_policy),
            time::duration_nanos(r@.rpc_timeout) == 30_000_000_000,
    {
        SeppClient { retry_policy: RetryPolicy::default(), rpc_timeout: Duration::from_secs(30) }
    }

    /// The policy for retrying calls.
    pub fn retry_policy(&self) -> (r: &RetryPolicy)
        ensures
            r@ == self@.retry_policy,
    {
        &self.retry_policy
    }

    /// The deadline of every call except reserve.
    pub fn rpc_timeout(&self) -> (d: Duration)
        ensures
            d == self@.rpc_timeout,
    {
        self.rpc_timeout
    }
}

/// An error and what caused it.
#[derive(Debug)]
pub struct ErrorChain {
    /// What went wrong.
    pub message: String,
    /// What caused it, if that is known.
    pub source: Option<Box<ErrorChain>>,
}

/// The errors of a chain, from the outermost to the innermost.
pub open spec fn chain_messages(err: ErrorChain) -> Seq<Seq<char>>
    decreases err,
{
    match err.source {
        Some(source) => seq![err.message@] + chain_messages(*source),
        None => seq![err.message@],
    }
}

/// The message of the innermost error of a chain.
pub fn root_cause(err: &ErrorChain) -> (s: String)
    ensures
        s@ == chain_messages(*err).last(),
        chain_messages(*err).len() > 0,
    decreases err,
{
    match &err.source {
        Some(source) => {
            let s = root_cause(source);
            assert(chain_messages(*err).last() == chain_messages(**source).last());
            s
        },
        None => err.message.clone(),
    }
}

/// The error for a connection that could not be established.
pub fn connect_error(addr: &str, err: &ErrorChain) -> (e: ClientError)
    ensures
        e matches ClientError::Connect { addr: a, reason } && a@ == addr@ && reason@
            == chain_messages(*err).last(),
{
    ClientError::Connect { addr: addr.to_owned(), reason: root_cause(err) }
}

} // verus!
