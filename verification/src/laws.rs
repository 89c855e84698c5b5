//! What holds of every configuration and of the descriptor it resolves to.
//!
//! Each law is stated over [`descriptor_of`], the descriptor that
//! [`NewRelicLogsConfig::build`] is proved to return.

use crate::config::{
    descriptor_of, NewRelicLogsConfig, DEFAULT_BATCH_BYTES, DEFAULT_IN_FLIGHT_LIMIT,
    DEFAULT_RATE_LIMIT_NUM, INSERT_KEY_HEADER, LICENSE_KEY_HEADER, MAX_REQUEST_BYTES,
};
use crate::headers::has_header;
use crate::region::{NewRelicLogsRegion, EU_ENDPOINT, US_ENDPOINT};
use crate::transport::{Compression, Encoding, HttpMethod};
use vstd::prelude::*;

verus! {

/// The two credential headers have different names, and so have the two
/// endpoints.
pub proof fn law_names_differ()
    ensures
        LICENSE_KEY_HEADER@ != INSERT_KEY_HEADER@,
        US_ENDPOINT@ != EU_ENDPOINT@,
{
    reveal_strlit("X-License-Key");
    reveal_strlit("X-Insert-Key");
    reveal_strlit("https://log-api.newrelic.com/log/v1");
    reveal_strlit("https://log-api.eu.newrelic.com/log/v1");
    assert(LICENSE_KEY_HEADER@.len() != INSERT_KEY_HEADER@.len());
    assert(US_ENDPOINT@.len() != EU_ENDPOINT@.len());
}

/// A configuration resolves to a descriptor exactly when it holds a license
/// key or an insert key.
pub proof fn law_descriptor_needs_credential(config: NewRelicLogsConfig)
    ensures
        descriptor_of(config@) is None <==> config.license_key is None && config.insert_key
            is None,
{
}

/// With only a license key, the headers are exactly `X-License-Key` with
/// that key, and no `X-Insert-Key` entry.
pub proof fn law_license_key_only(config: NewRelicLogsConfig)
    requires
        config.license_key is Some,
        config.insert_key is None,
    ensures
        descriptor_of(config@) matches Some(descriptor) && descriptor.headers matches Some(headers)
            && headers == seq![(LICENSE_KEY_HEADER@, config.license_key->0@)] && !has_header(
            headers,
            INSERT_KEY_HEADER@,
        ),
{
    law_names_differ();
}

/// With only an insert key, the headers are exactly `X-Insert-Key` with that
/// key, and no `X-License-Key` entry.
pub proof fn law_insert_key_only(config: NewRelicLogsConfig)
    requires
        config.license_key is None,
        config.insert_key is Some,
    ensures
        descriptor_of(config@) matches Some(descriptor) && descriptor.headers matches Some(headers)
            && headers == seq![(INSERT_KEY_HEADER@, config.insert_key->0@)] && !has_header(
            headers,
            LICENSE_KEY_HEADER@,
        ),
{
    law_names_differ();
}

/// With both keys, the license key wins: the headers are exactly
/// `X-License-Key` with the license key, and no `X-Insert-Key` entry.
pub proof fn law_license_key_wins(config: NewRelicLogsConfig)
    requires
        config.license_key is Some,
        config.insert_key is Some,
    ensures
        descriptor_of(config@) matches Some(descriptor) && descriptor.headers matches Some(headers)
            && headers == seq![(LICENSE_KEY_HEADER@, config.license_key->0@)] && !has_header(
            headers,
            INSERT_KEY_HEADER@,
        ),
{
    law_names_differ();
}

/// A descriptor carries exactly one header, and it is one of the two
/// credential headers.
pub proof fn law_exactly_one_credential_header(config: NewRelicLogsConfig)
    ensures
        descriptor_of(config@) matches Some(descriptor) ==> descriptor.headers matches Some(
            headers,
        ) && headers.len() == 1 && (has_header(headers, LICENSE_KEY_HEADER@) != has_header(
            headers,
            INSERT_KEY_HEADER@,
        )),
{
    law_names_differ();
    if descriptor_of(config@) is Some {
        let headers = descriptor_of(config@)->0.headers->0;
        assert(headers[0].0 == LICENSE_KEY_HEADER@ || headers[0].0 == INSERT_KEY_HEADER@);
    }
}

/// The endpoint is the United States one if the region is unset or `Us`,
/// and the European Union one if it is `Eu`; it is never anything else.
pub proof fn law_endpoint_follows_region(config: NewRelicLogsConfig)
    ensures
        descriptor_of(config@) matches Some(descriptor) ==> {
            &&& config.region is None || config.region == Some(NewRelicLogsRegion::Us)
                ==> descriptor.uri == US_ENDPOINT@
            &&& config.region == Some(NewRelicLogsRegion::Eu) ==> descriptor.uri
                == EU_ENDPOINT@
            &&& descriptor.uri == US_ENDPOINT@ || descriptor.uri == EU_ENDPOINT@
        },
{
}

/// The batch size is five mebibytes if none is configured, which is within
/// what the ingestion API accepts; a configured size is taken as it is. The
/// timeout is always taken as it is.
pub proof fn law_batch_policy(config: NewRelicLogsConfig)
    ensures
        descriptor_of(config@) matches Some(descriptor) ==> {
            &&& config.batch.batch_size is None ==> descriptor.batch.batch_size == Some(
                DEFAULT_BATCH_BYTES,
            )
            &&& config.batch.batch_size matches Some(size) ==> descriptor.batch.batch_size
                == Some(size)
            &&& descriptor.batch.batch_timeout == config.batch.batch_timeout
        },
        DEFAULT_BATCH_BYTES == 5 * 1024 * 1024,
        DEFAULT_BATCH_BYTES <= MAX_REQUEST_BYTES,
{
}

/// The in-flight limit and the rate-limit number are 100 each if not
/// configured and are taken as they are if configured; the other four
/// request knobs are always taken as they are.
pub proof fn law_request_policy(config: NewRelicLogsConfig)
    ensures
        descriptor_of(config@) matches Some(descriptor) ==> {
            &&& config.request_in_flight_limit is None ==> descriptor.request.in_flight_limit
                == Some(100usize)
            &&& config.request_in_flight_limit matches Some(limit)
                ==> descriptor.request.in_flight_limit == Some(limit)
            &&& config.request_rate_limit_num is None ==> descriptor.request.rate_limit_num
                == Some(100u64)
            &&& config.request_rate_limit_num matches Some(num)
                ==> descriptor.request.rate_limit_num == Some(num)
            &&& descriptor.request.timeout_secs == config.request_timeout_secs
            &&& descriptor.request.rate_limit_duration_secs
                == config.request_rate_limit_duration_secs
            &&& descriptor.request.retry_attempts == config.request_retry_attempts
            &&& descriptor.request.retry_backoff_secs == config.request_retry_backoff_secs
        },
{
}

/// Every descriptor posts uncompressed JSON, and sets neither a health-check
/// address nor basic authentication nor TLS options.
pub proof fn law_fixed_transport(config: NewRelicLogsConfig)
    ensures
        descriptor_of(config@) matches Some(descriptor) ==> {
            &&& descriptor.method == Some(HttpMethod::Post)
            &&& descriptor.compression == Some(Compression::Uncompressed)
            &&& descriptor.encoding == Encoding::Json
            &&& descriptor.healthcheck_uri is None
            &&& descriptor.basic_auth is None
            &&& descriptor.tls is None
        },
{
}

} // verus!
