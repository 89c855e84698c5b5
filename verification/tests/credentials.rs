use new_relic_logs::config::{NewRelicLogsConfig, INSERT_KEY_HEADER, LICENSE_KEY_HEADER};
use new_relic_logs::error::{ConfigurationError, MISSING_CREDENTIAL_MESSAGE};
use new_relic_logs::region::NewRelicLogsRegion;
use new_relic_logs::transport::BatchConfig;

fn with_keys(license_key: Option<&str>, insert_key: Option<&str>) -> NewRelicLogsConfig {
    NewRelicLogsConfig {
        license_key: license_key.map(|key| key.to_owned()),
        insert_key: insert_key.map(|key| key.to_owned()),
        ..NewRelicLogsConfig::default()
    }
}

#[test]
fn build_without_keys_is_a_missing_credential() {
    let outcome = with_keys(None, None).build();
    assert_eq!(outcome.err(), Some(ConfigurationError::MissingCredential));
}

#[test]
fn build_without_keys_fails_whatever_else_is_set() {
    let config = NewRelicLogsConfig {
        region: Some(NewRelicLogsRegion::Eu),
        batch: BatchConfig { batch_size: Some(4096), batch_timeout: Some(2) },
        request_in_flight_limit: Some(3),
        request_timeout_secs: Some(30),
        request_rate_limit_duration_secs: Some(1),
        request_rate_limit_num: Some(10),
        request_retry_attempts: Some(5),
        request_retry_backoff_secs: Some(1),
        ..NewRelicLogsConfig::default()
    };
    assert!(config.build().is_err());
    assert!(config.credential_headers().is_err());
}

#[test]
fn missing_credential_message_names_both_fields() {
    let message = ConfigurationError::MissingCredential.message();
    assert_eq!(message, "must provide either 'license_key' or 'insert_key'");
    assert_eq!(message, MISSING_CREDENTIAL_MESSAGE);
    assert!(message.contains("license_key"));
    assert!(message.contains("insert_key"));
}

#[test]
fn license_key_alone_gives_the_license_header() {
    let descriptor = with_keys(Some("abc"), None).build().unwrap();
    let headers = descriptor.headers.unwrap();
    assert_eq!(headers.len(), 1);
    assert_eq!(headers.get("X-License-Key"), Some(&"abc".to_owned()));
    assert_eq!(headers.get("X-Insert-Key"), None);
}

#[test]
fn insert_key_alone_gives_the_insert_header() {
    let descriptor = with_keys(None, Some("xyz")).build().unwrap();
    let headers = descriptor.headers.unwrap();
    assert_eq!(headers.len(), 1);
    assert_eq!(headers.get("X-Insert-Key"), Some(&"xyz".to_owned()));
    assert_eq!(headers.get("X-License-Key"), None);
}

#[test]
fn license_key_wins_over_insert_key() {
    let descriptor = with_keys(Some("license"), Some("insert")).build().unwrap();
    let headers = descriptor.headers.unwrap();
    assert_eq!(headers.len(), 1);
    assert_eq!(headers.get("X-License-Key"), Some(&"license".to_owned()));
    assert_eq!(headers.get("X-Insert-Key"), None);
}

#[test]
fn the_credential_is_the_first_and_only_entry() {
    let headers = with_keys(None, Some("k")).credential_headers().unwrap();
    let entries: Vec<(&String, &String)> = headers.iter().collect();
    assert_eq!(entries, vec![(&"X-Insert-Key".to_owned(), &"k".to_owned())]);

    let headers = with_keys(Some("l"), Some("k")).credential_headers().unwrap();
    let entries: Vec<(&String, &String)> = headers.iter().collect();
    assert_eq!(entries, vec![(&"X-License-Key".to_owned(), &"l".to_owned())]);
}

#[test]
fn an_empty_key_still_counts_as_a_credential() {
    let descriptor = with_keys(Some(""), Some("insert")).build().unwrap();
    let headers = descriptor.headers.unwrap();
    assert_eq!(headers.len(), 1);
    assert_eq!(headers.get("X-License-Key"), Some(&String::new()));

    let descriptor = with_keys(None, Some("")).build().unwrap();
    let headers = descriptor.headers.unwrap();
    assert_eq!(headers.get("X-Insert-Key"), Some(&String::new()));
}

#[test]
fn a_key_is_carried_character_for_character() {
    let key = " NRII-päss wörd\t\u{1F511} ";
    let descriptor = with_keys(Some(key), None).build().unwrap();
    assert_eq!(descriptor.headers.unwrap().get("X-License-Key"), Some(&key.to_owned()));
}

#[test]
fn header_names_are_the_documented_ones() {
    assert_eq!(LICENSE_KEY_HEADER, "X-License-Key");
    assert_eq!(INSERT_KEY_HEADER, "X-Insert-Key");
    assert_ne!(LICENSE_KEY_HEADER, INSERT_KEY_HEADER);
}

#[test]
fn build_leaves_the_configuration_as_it_was() {
    let config = with_keys(Some("abc"), Some("def"));
    let first = config.build().unwrap();
    let second = config.build().unwrap();
    assert_eq!(config.license_key, Some("abc".to_owned()));
    assert_eq!(config.insert_key, Some("def".to_owned()));
    assert_eq!(first.headers, second.headers);
    assert_eq!(first.uri, second.uri);
}
