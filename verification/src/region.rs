//! The ingestion region and the endpoint it selects.

use vstd::prelude::*;

verus! {

/// Endpoint of the United States ingestion region.
pub const US_ENDPOINT: &'static str = "https://log-api.newrelic.com/log/v1";

/// Endpoint of the European Union ingestion region.
pub const EU_ENDPOINT: &'static str = "https://log-api.eu.newrelic.com/log/v1";

/// The region whose ingestion endpoint receives the logs.
#[derive(Clone, Copy, Debug, PartialEq, Eq, Structural)]
pub enum NewRelicLogsRegion {
    Us,
    Eu,
}

impl Default for NewRelicLogsRegion {
    fn default() -> (region: Self)
        ensures
            region == NewRelicLogsRegion::Us,
    {
        NewRelicLogsRegion::Us
    }
}

/// The endpoint that a region selector stands for. An absent selector means
/// the United States.
pub open spec fn endpoint_of(region: Option<NewRelicLogsRegion>) -> Seq<char> {
    match region {
        Some(NewRelicLogsRegion::Eu) => EU_ENDPOINT@,
        Some(NewRelicLogsRegion::Us) | None => US_ENDPOINT@,
    }
}

} // verus!
