use geoip_client::{check_status, lookup_url, ApiClient, LookupError, LookupKind};

#[test]
fn urls_per_lookup() {
    assert_eq!(
        lookup_url(LookupKind::Country, "81.2.69.142"),
        "https://geoip.maxmind.com/geoip/v2.1/country/81.2.69.142"
    );
    assert_eq!(
        lookup_url(LookupKind::City, "2001:db8::1"),
        "https://geoip.maxmind.com/geoip/v2.1/city/2001:db8::1"
    );
    assert_eq!(
        lookup_url(LookupKind::Insights, "not an address"),
        "https://geoip.maxmind.com/geoip/v2.1/insights/not an address"
    );
}

#[test]
fn success_statuses() {
    assert_eq!(check_status(200), Ok(()));
    assert_eq!(check_status(299), Ok(()));
    assert_eq!(check_status(199), Err(LookupError::Rejected { status: 199 }));
    assert_eq!(check_status(300), Err(LookupError::Rejected { status: 300 }));
    assert_eq!(check_status(404), Err(LookupError::Rejected { status: 404 }));
}

#[test]
fn client_keeps_credentials() {
    let c = ApiClient::new_client("42", "SECRET-REDACTED").unwrap();
    assert_eq!(c.user_id(), "42");
    assert_eq!(c.license_key(), "SECRET-REDACTED");
}
