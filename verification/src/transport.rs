//! The transport descriptor that a batching HTTP sink executes, and the
//! small vocabularies it is built from.

use crate::headers::header_entries;
use indexmap::IndexMap;
use vstd::prelude::*;

verus! {

/// The kind of event a pipeline component accepts.
#[derive(Clone, Copy, Debug, PartialEq, Eq, Structural)]
pub enum DataType {
    Any,
    Log,
    Metric,
}

/// The HTTP method of a request.
#[derive(Clone, Copy, Debug, PartialEq, Eq, Structural)]
pub enum HttpMethod {
    Post,
    Put,
}

/// How events are encoded into a request body.
#[derive(Clone, Copy, Debug, PartialEq, Eq, Structural)]
pub enum Encoding {
    Text,
    Ndjson,
    Json,
}

/// How a request body is compressed.
#[derive(Clone, Copy, Debug, PartialEq, Eq, Structural)]
pub enum Compression {
    /// The body is sent as it is.
    Uncompressed,
    Gzip,
}

/// When a batch of events is sent: once it holds `batch_size` bytes, or once
/// `batch_timeout` seconds have passed. An absent field leaves the choice to
/// the transport.
#[derive(Clone, Copy, Debug, PartialEq, Eq, Structural)]
pub struct BatchConfig {
    pub batch_size: Option<usize>,
    pub batch_timeout: Option<u64>,
}

impl Default for BatchConfig {
    fn default() -> (batch: Self)
        ensures
            batch == (BatchConfig { batch_size: None, batch_timeout: None }),
    {
        BatchConfig { batch_size: None, batch_timeout: None }
    }
}

/// The six knobs that tune how requests are issued. An absent field leaves
/// the choice to the transport.
#[derive(Clone, Copy, Debug, PartialEq, Eq, Structural)]
pub struct RequestPolicy {
    pub in_flight_limit: Option<usize>,
    pub timeout_secs: Option<u64>,
    pub rate_limit_duration_secs: Option<u64>,
    pub rate_limit_num: Option<u64>,
    pub retry_attempts: Option<usize>,
    pub retry_backoff_secs: Option<u64>,
}

/// User name and password for HTTP basic authentication.
#[derive(Clone, Debug)]
pub struct BasicAuth {
    pub user: String,
    pub password: String,
}

/// What a [`BasicAuth`] stands for in specifications.
pub struct BasicAuthView {
    pub user: Seq<char>,
    pub password: Seq<char>,
}

impl View for BasicAuth {
    type V = BasicAuthView;

    open spec fn view(&self) -> BasicAuthView {
        BasicAuthView { user: self.user@, password: self.password@ }
    }
}

/// Overrides of the transport's TLS behaviour.
#[derive(Clone, Debug)]
pub struct TlsOptions {
    pub verify_certificate: Option<bool>,
    pub verify_hostname: Option<bool>,
    pub ca_path: Option<String>,
    pub crt_path: Option<String>,
    pub key_path: Option<String>,
    pub key_pass: Option<String>,
}

/// What a [`TlsOptions`] stands for in specifications.
pub struct TlsOptionsView {
    pub verify_certificate: Option<bool>,
    pub verify_hostname: Option<bool>,
    pub ca_path: Option<Seq<char>>,
    pub crt_path: Option<Seq<char>>,
    pub key_path: Option<Seq<char>>,
    pub key_pass: Option<Seq<char>>,
}

/// The characters of an optional string.
pub open spec fn text_of(text: Option<String>) -> Option<Seq<char>> {
    match text {
        Some(s) => Some(s@),
        None => None,
    }
}

impl View for TlsOptions {
    type V = TlsOptionsView;

    open spec fn view(&self) -> TlsOptionsView {
        TlsOptionsView {
            verify_certificate: self.verify_certificate,
            verify_hostname: self.verify_hostname,
            ca_path: text_of(self.ca_path),
            crt_path: text_of(self.crt_path),
            key_path: text_of(self.key_path),
            key_pass: text_of(self.key_pass),
        }
    }
}

/// The fully resolved description of a batching HTTP sink: where requests
/// go, what they carry, and how they are batched and issued.
#[derive(Clone, Debug)]
pub struct HttpSinkConfig {
    pub uri: String,
    pub method: Option<HttpMethod>,
    pub healthcheck_uri: Option<String>,
    pub basic_auth: Option<BasicAuth>,
    pub headers: Option<IndexMap<String, String>>,
    pub compression: Option<Compression>,
    pub encoding: Encoding,
    pub batch: BatchConfig,
    pub request_in_flight_limit: Option<usize>,
    pub request_timeout_secs: Option<u64>,
    pub request_rate_limit_duration_secs: Option<u64>,
    pub request_rate_limit_num: Option<u64>,
    pub request_retry_attempts: Option<usize>,
    pub request_retry_backoff_secs: Option<u64>,
    pub tls: Option<TlsOptions>,
}

/// What an [`HttpSinkConfig`] stands for in specifications: strings as
/// their characters, and the header mapping as its `(name, value)` entries
/// in insertion order.
#[verifier::ext_equal]
pub struct HttpSinkConfigView {
    pub uri: Seq<char>,
    pub method: Option<HttpMethod>,
    pub healthcheck_uri: Option<Seq<char>>,
    pub basic_auth: Option<BasicAuthView>,
    pub headers: Option<Seq<(Seq<char>, Seq<char>)>>,
    pub compression: Option<Compression>,
    pub encoding: Encoding,
    pub batch: BatchConfig,
    pub request: RequestPolicy,
    pub tls: Option<TlsOptionsView>,
}

impl View for HttpSinkConfig {
    type V = HttpSinkConfigView;

    open spec fn view(&self) -> HttpSinkConfigView {
        HttpSinkConfigView {
            uri: self.uri@,
            method: self.method,
            healthcheck_uri: text_of(self.healthcheck_uri),
            basic_auth: match self.basic_auth {
                Some(auth) => Some(auth@),
                None => None,
            },
            headers: match self.headers {
                Some(headers) => Some(header_entries(headers)),
                None => None,
            },
            compression: self.compression,
            encoding: self.encoding,
            batch: self.batch,
            request: RequestPolicy {
                in_flight_limit: self.request_in_flight_limit,
                timeout_secs: self.request_timeout_secs,
                rate_limit_duration_secs: self.request_rate_limit_duration_secs,
                rate_limit_num: self.request_rate_limit_num,
                retry_attempts: self.request_retry_attempts,
                retry_backoff_secs: self.request_retry_backoff_secs,
            },
            tls: match self.tls {
                Some(tls) => Some(tls@),
                None => None,
            },
        }
    }
}

} // verus!
