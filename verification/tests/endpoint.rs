use new_relic_logs::config::NewRelicLogsConfig;
use new_relic_logs::region::{NewRelicLogsRegion, EU_ENDPOINT, US_ENDPOINT};

fn in_region(region: Option<NewRelicLogsRegion>) -> NewRelicLogsConfig {
    NewRelicLogsConfig {
        license_key: Some("abc".to_owned()),
        region,
        ..NewRelicLogsConfig::default()
    }
}

#[test]
fn unset_region_means_the_us_endpoint() {
    let config = in_region(None);
    assert_eq!(config.endpoint(), "https://log-api.newrelic.com/log/v1");
    assert_eq!(config.build().unwrap().uri, "https://log-api.newrelic.com/log/v1");
}

#[test]
fn us_region_means_the_us_endpoint() {
    let config = in_region(Some(NewRelicLogsRegion::Us));
    assert_eq!(config.endpoint(), "https://log-api.newrelic.com/log/v1");
    assert_eq!(config.build().unwrap().uri, "https://log-api.newrelic.com/log/v1");
}

#[test]
fn eu_region_means_the_eu_endpoint() {
    let config = in_region(Some(NewRelicLogsRegion::Eu));
    assert_eq!(config.endpoint(), "https://log-api.eu.newrelic.com/log/v1");
    assert_eq!(config.build().unwrap().uri, "https://log-api.eu.newrelic.com/log/v1");
}

#[test]
fn endpoint_does_not_need_a_credential() {
    let config = NewRelicLogsConfig {
        region: Some(NewRelicLogsRegion::Eu),
        ..NewRelicLogsConfig::default()
    };
    assert_eq!(config.endpoint(), EU_ENDPOINT);
    assert_eq!(NewRelicLogsConfig::default().endpoint(), US_ENDPOINT);
}

#[test]
fn endpoint_constants_are_the_documented_addresses() {
    assert_eq!(US_ENDPOINT, "https://log-api.newrelic.com/log/v1");
    assert_eq!(EU_ENDPOINT, "https://log-api.eu.newrelic.com/log/v1");
}

#[test]
fn default_region_is_us() {
    assert_eq!(NewRelicLogsRegion::default(), NewRelicLogsRegion::Us);
}

#[test]
fn keys_never_reach_the_endpoint() {
    let config = NewRelicLogsConfig {
        license_key: Some("https://example.org/".to_owned()),
        insert_key: Some("?q=1".to_owned()),
        ..NewRelicLogsConfig::default()
    };
    assert_eq!(config.build().unwrap().uri, US_ENDPOINT);
}
