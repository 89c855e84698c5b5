//! The sink's configuration and its resolution into a transport descriptor.

use crate::error::ConfigurationError;
use crate::headers::{header_entries, insert_header, new_headers};
use crate::region::{endpoint_of, NewRelicLogsRegion, EU_ENDPOINT, US_ENDPOINT};
use crate::transport::{
    text_of, BatchConfig, Compression, DataType, Encoding, HttpMethod, HttpSinkConfig,
    HttpSinkConfigView, RequestPolicy,
};
use crate::units::mib;
use indexmap::IndexMap;
use vstd::prelude::*;

verus! {

/// The name under which this kind of sink is known to a pipeline.
pub const SINK_TYPE: &'static str = "new_relic_logs";

/// Name of the header that carries a license key.
pub const LICENSE_KEY_HEADER: &'static str = "X-License-Key";

/// Name of the header that carries an insert key.
pub const INSERT_KEY_HEADER: &'static str = "X-Insert-Key";

/// Size of a batch, in mebibytes, when the configuration names none.
pub const DEFAULT_BATCH_MIB: u64 = 5;

/// Size of a batch, in bytes, when the configuration names none: half of the
/// largest request that the ingestion API accepts.
pub const DEFAULT_BATCH_BYTES: usize = 5 * 1024 * 1024;

/// The largest request, in bytes, that the ingestion API accepts.
pub const MAX_REQUEST_BYTES: usize = 10 * 1024 * 1024;

/// Number of requests in flight when the configuration names none.
pub const DEFAULT_IN_FLIGHT_LIMIT: usize = 100;

/// Number of requests per rate-limit window when the configuration names none.
pub const DEFAULT_RATE_LIMIT_NUM: u64 = 100;

/// How logs are forwarded to New Relic: the credential, the region, and the
/// tuning of batches and requests. Every field is optional, but a sink can be
/// built only if `license_key` or `insert_key` is set.
#[derive(Clone, Debug)]
pub struct NewRelicLogsConfig {
    pub license_key: Option<String>,
    pub insert_key: Option<String>,
    pub region: Option<NewRelicLogsRegion>,
    pub batch: BatchConfig,
    pub request_in_flight_limit: Option<usize>,
    pub request_timeout_secs: Option<u64>,
    pub request_rate_limit_duration_secs: Option<u64>,
    pub request_rate_limit_num: Option<u64>,
    pub request_retry_attempts: Option<usize>,
    pub request_retry_backoff_secs: Option<u64>,
}

/// What a [`NewRelicLogsConfig`] stands for in specifications: keys as their
/// characters, and the six request knobs gathered into one policy.
pub struct NewRelicLogsConfigView {
    pub license_key: Option<Seq<char>>,
    pub insert_key: Option<Seq<char>>,
    pub region: Option<NewRelicLogsRegion>,
    pub batch: BatchConfig,
    pub request: RequestPolicy,
}

impl View for NewRelicLogsConfig {
    type V = NewRelicLogsConfigView;

    open spec fn view(&self) -> NewRelicLogsConfigView {
        NewRelicLogsConfigView {
            license_key: text_of(self.license_key),
            insert_key: text_of(self.insert_key),
            region: self.region,
            batch: self.batch,
            request: RequestPolicy {
                in_flight_limit: self.request_in_flight_limit,
                timeout_secs: self.request_timeout_secs,
                rate_limit_duration_secs: self.request_rate_limit_duration_secs,
                rate_limit_num: self.request_rate_limit_num,
                retry_attempts: self.request_retry_attempts,
                retry_backoff_secs: self.request_retry_backoff_secs,
            },
        }
    }
}

/// The one credential header that a pair of keys yields: the license key if
/// there is one, else the insert key, else nothing.
pub open spec fn credential_of(
    license_key: Option<Seq<char>>,
    insert_key: Option<Seq<char>>,
) -> Option<(Seq<char>, Seq<char>)> {
    match (license_key, insert_key) {
        (Some(key), _) => Some((LICENSE_KEY_HEADER@, key)),
        (None, Some(key)) => Some((INSERT_KEY_HEADER@, key)),
        (None, None) => None,
    }
}

/// The batch policy that configured batch settings resolve to: the size
/// defaults to [`DEFAULT_BATCH_BYTES`], the timeout is left as it is.
pub open spec fn batch_policy_of(batch: BatchConfig) -> BatchConfig {
    BatchConfig {
        batch_size: Some(
            match batch.batch_size {
                Some(size) => size,
                None => DEFAULT_BATCH_BYTES,
            },
        ),
        batch_timeout: batch.batch_timeout,
    }
}

/// The request policy that configured request knobs resolve to: the
/// in-flight limit and the rate-limit number get a default, the other four
/// are left as they are.
pub open spec fn request_policy_of(request: RequestPolicy) -> RequestPolicy {
    RequestPolicy {
        in_flight_limit: Some(
            match request.in_flight_limit {
                Some(limit) => limit,
                None => DEFAULT_IN_FLIGHT_LIMIT,
            },
        ),
        timeout_secs: request.timeout_secs,
        rate_limit_duration_secs: request.rate_limit_duration_secs,
        rate_limit_num: Some(
            match request.rate_limit_num {
                Some(num) => num,
                None => DEFAULT_RATE_LIMIT_NUM,
            },
        ),
        retry_attempts: request.retry_attempts,
        retry_backoff_secs: request.retry_backoff_secs,
    }
}

/// The transport descriptor that a configuration resolves to, or `None` if
/// the configuration holds no credential.
pub open spec fn descriptor_of(config: NewRelicLogsConfigView) -> Option<HttpSinkConfigView> {
    match credential_of(config.license_key, config.insert_key) {
        Some(credential) => Some(
            HttpSinkConfigView {
                uri: endpoint_of(config.region),
                method: Some(HttpMethod::Post),
                healthcheck_uri: None,
                basic_auth: None,
                headers: Some(seq![credential]),
                compression: Some(Compression::Uncompressed),
                encoding: Encoding::Json,
                batch: batch_policy_of(config.batch),
                request: request_policy_of(config.request),
                tls: None,
            },
        ),
        None => None,
    }
}

impl Default for NewRelicLogsConfig {
    fn default() -> (config: Self)
        ensures
            config@ == (NewRelicLogsConfigView {
                license_key: None,
                insert_key: None,
                region: None,
                batch: BatchConfig { batch_size: None, batch_timeout: None },
                request: RequestPolicy {
                    in_flight_limit: None,
                    timeout_secs: None,
                    rate_limit_duration_secs: None,
                    rate_limit_num: None,
                    retry_attempts: None,
                    retry_backoff_secs: None,
                },
            }),
    {
        NewRelicLogsConfig {
            license_key: None,
            insert_key: None,
            region: None,
            batch: BatchConfig { batch_size: None, batch_timeout: None },
            request_in_flight_limit: None,
            request_timeout_secs: None,
            request_rate_limit_duration_secs: None,
            request_rate_limit_num: None,
            request_retry_attempts: None,
            request_retry_backoff_secs: None,
        }
    }
}

impl NewRelicLogsConfig {
    /// Picks the credential and puts it, as the only entry, into a fresh
    /// header mapping. The license key wins over the insert key; with
    /// neither there is no mapping.
    pub fn credential_headers(&self) -> (result: Result<
        IndexMap<String, String>,
        ConfigurationError,
    >)
        ensures
            result is Err <==> self.license_key is None && self.insert_key is None,
            match result {
                Ok(headers) => credential_of(self@.license_key, self@.insert_key) matches Some(
                    credential,
                ) && header_entries(headers) == seq![credential],
                Err(error) => error == ConfigurationError::MissingCredential,
            },
    {
        let mut headers = new_headers();
        if let Some(license_key) = &self.license_key {
            insert_header(&mut headers, LICENSE_KEY_HEADER.to_owned(), license_key.clone());
        } else if let Some(insert_key) = &self.insert_key {
            insert_header(&mut headers, INSERT_KEY_HEADER.to_owned(), insert_key.clone());
        } else {
            return Err(ConfigurationError::MissingCredential);
        }
        Ok(headers)
    }

    /// The ingestion endpoint of the configured region, the United States if
    /// none is configured.
    pub fn endpoint(&self) -> (uri: &'static str)
        ensures
            uri@ == endpoint_of(self.region),
    {
        match self.region.unwrap_or(NewRelicLogsRegion::Us) {
            NewRelicLogsRegion::Us => US_ENDPOINT,
            NewRelicLogsRegion::Eu => EU_ENDPOINT,
        }
    }

    /// The batch policy handed to the transport: the configured size, or
    /// [`DEFAULT_BATCH_BYTES`] if none is configured, and the configured
    /// timeout. A configured size is never clamped.
    pub fn batch_policy(&self) -> (policy: BatchConfig)
        ensures
            policy == batch_policy_of(self.batch),
    {
        BatchConfig {
            batch_size: Some(self.batch.batch_size.unwrap_or(mib(DEFAULT_BATCH_MIB) as usize)),
            batch_timeout: self.batch.batch_timeout,
        }
    }

    /// The request policy handed to the transport: every configured knob
    /// unchanged, [`DEFAULT_IN_FLIGHT_LIMIT`] and [`DEFAULT_RATE_LIMIT_NUM`]
    /// where those two are not configured, and the other four absent where
    /// they are not.
    pub fn request_policy(&self) -> (policy: RequestPolicy)
        ensures
            policy == request_policy_of(self@.request),
    {
        RequestPolicy {
            in_flight_limit: Some(self.request_in_flight_limit.unwrap_or(DEFAULT_IN_FLIGHT_LIMIT)),
            timeout_secs: self.request_timeout_secs,
            rate_limit_duration_secs: self.request_rate_limit_duration_secs,
            rate_limit_num: Some(self.request_rate_limit_num.unwrap_or(DEFAULT_RATE_LIMIT_NUM)),
            retry_attempts: self.request_retry_attempts,
            retry_backoff_secs: self.request_retry_backoff_secs,
        }
    }

    /// Resolves the configuration into the descriptor of the HTTP sink that
    /// forwards the logs: JSON bodies, uncompressed, posted to the region's
    /// endpoint with the credential as the only header. Fails, and yields no
    /// descriptor, exactly when neither key is configured.
    pub fn build(&self) -> (result: Result<HttpSinkConfig, ConfigurationError>)
        ensures
            result is Err <==> self.license_key is None && self.insert_key is None,
            match result {
                Ok(descriptor) => descriptor_of(self@) == Some(descriptor@),
                Err(error) => descriptor_of(self@) is None && error
                    == ConfigurationError::MissingCredential,
            },
    {
        let headers = match self.credential_headers() {
            Ok(headers) => headers,
            Err(error) => {
                return Err(error);
            },
        };
        let uri = self.endpoint();
        let batch = self.batch_policy();
        let request = self.request_policy();
        let descriptor = HttpSinkConfig {
            uri: uri.to_owned(),
            method: Some(HttpMethod::Post),
            healthcheck_uri: None,
            basic_auth: None,
            headers: Some(headers),
            compression: Some(Compression::Uncompressed),
            encoding: Encoding::Json,
            batch,
            request_in_flight_limit: request.in_flight_limit,
            request_timeout_secs: request.timeout_secs,
            request_rate_limit_duration_secs: request.rate_limit_duration_secs,
            request_rate_limit_num: request.rate_limit_num,
            request_retry_attempts: request.retry_attempts,
            request_retry_backoff_secs: request.retry_backoff_secs,
            tls: None,
        };
        Ok(descriptor)
    }

    /// The kind of event this sink accepts: log events, whatever the
    /// configuration holds.
    pub fn input_type(&self) -> (kind: DataType)
        ensures
            kind == DataType::Log,
    {
        DataType::Log
    }

    /// The name of this kind of sink.
    pub fn sink_type(&self) -> (name: &'static str)
        ensures
            name@ == SINK_TYPE@,
    {
        SINK_TYPE
    }
}

} // verus!
