use sse_clock::config::{address_from_config, AddressCache};
use sse_clock::error::SSEError;

#[test]
fn address_is_read() {
    let text = r#"{"address":"127.0.0.1:1234","encrypted_address":"x"}"#;
    assert_eq!(address_from_config(text), Ok("127.0.0.1:1234".to_string()));
}

#[test]
fn malformed_config_is_a_parse_error() {
    assert_eq!(address_from_config("{\"address\": "), Err(SSEError::JSonError));
    assert_eq!(address_from_config(""), Err(SSEError::JSonError));
}

#[test]
fn missing_address_is_reported() {
    assert_eq!(address_from_config("{\"port\": 1234}"), Err(SSEError::NoAddress));
    assert_eq!(address_from_config("[\"address\"]"), Err(SSEError::NoAddress));
}

#[test]
fn address_must_be_a_string() {
    assert_eq!(address_from_config("{\"address\": 1234}"), Err(SSEError::NoStringAddress));
    assert_eq!(address_from_config("{\"address\": null}"), Err(SSEError::NoStringAddress));
}

#[test]
fn cache_reports_changes() {
    let mut cache = AddressCache::new();
    assert_eq!(cache.address, "");
    assert_eq!(cache.update("{\"address\":\"127.0.0.1:1\"}"), Ok(true));
    assert_eq!(cache.address, "127.0.0.1:1");
    assert_eq!(cache.update("{\"address\":\"127.0.0.1:1\"}"), Ok(false));
    assert_eq!(cache.update("{\"address\":\"127.0.0.1:2\"}"), Ok(true));
    assert_eq!(cache.address, "127.0.0.1:2");
}

#[test]
fn cache_kept_on_error() {
    let mut cache = AddressCache::new();
    assert_eq!(cache.update("{\"address\":\"127.0.0.1:1\"}"), Ok(true));
    assert_eq!(cache.update("{}"), Err(SSEError::NoAddress));
    assert_eq!(cache.address, "127.0.0.1:1");
}
