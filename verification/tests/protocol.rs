use mycelium_station::auth0::{
    classify_token_response, device_code_endpoint, device_code_form, parse_token_status,
    poll_form, refresh_form, token_endpoint, TokenResult, TokenStatus,
};
use mycelium_station::wifi::{
    enrich, find_access_point, AccessPointInfo, MyceliumWifiSettings,
};

#[test]
fn token_statuses_parse_from_their_wire_strings() {
    assert!(matches!(
        parse_token_status("authorization_pending"),
        Some(TokenStatus::AuthorizationPending)
    ));
    assert!(matches!(
        parse_token_status("slow_down"),
        Some(TokenStatus::SlowDown)
    ));
    assert!(matches!(
        parse_token_status("expired_token"),
        Some(TokenStatus::ExpiredToken)
    ));
    assert!(matches!(
        parse_token_status("access_denied"),
        Some(TokenStatus::AccessDenied)
    ));
    assert!(matches!(
        parse_token_status("invalid_grant"),
        Some(TokenStatus::InvalidGrant)
    ));
    assert!(parse_token_status("invalid_request").is_none());
    assert!(parse_token_status("").is_none());
}

#[test]
fn only_pending_and_slow_down_are_retryable() {
    assert!(TokenStatus::AuthorizationPending.retryable());
    assert!(TokenStatus::SlowDown.retryable());
    assert!(!TokenStatus::ExpiredToken.retryable());
    assert!(!TokenStatus::AccessDenied.retryable());
    assert!(!TokenStatus::InvalidGrant.retryable());
}

#[test]
fn error_field_wins_over_token_fields() {
    let r = classify_token_response(
        Some(String::from("access_denied")),
        Some(String::from("a")),
        Some(String::from("r")),
        Some(3600),
    );
    assert!(matches!(
        r,
        Some(TokenResult::Error { error: TokenStatus::AccessDenied })
    ));
}

#[test]
fn refresh_token_presence_makes_a_full_grant() {
    let r = classify_token_response(
        None,
        Some(String::from("a")),
        Some(String::from("r")),
        Some(3600),
    );
    match r {
        Some(TokenResult::Full { access_token, refresh_token, expires_in }) => {
            assert_eq!(access_token, "a");
            assert_eq!(refresh_token, "r");
            assert_eq!(expires_in, 3600);
        }
        _ => panic!("expected a full grant"),
    }
}

#[test]
fn access_token_alone_is_a_refresh_response() {
    let r = classify_token_response(None, Some(String::from("a")), None, Some(60));
    match r {
        Some(TokenResult::AccessToken { access_token, expires_in }) => {
            assert_eq!(access_token, "a");
            assert_eq!(expires_in, 60);
        }
        _ => panic!("expected an access-token-only response"),
    }
}

#[test]
fn malformed_token_responses_are_rejected() {
    // An unknown error status.
    assert!(classify_token_response(Some(String::from("nope")), None, None, None).is_none());
    // A refresh token without an access token.
    assert!(classify_token_response(None, None, Some(String::from("r")), Some(1)).is_none());
    // An access token without a lifetime.
    assert!(classify_token_response(None, Some(String::from("a")), None, None).is_none());
    // Nothing at all.
    assert!(classify_token_response(None, None, None, None).is_none());
}

#[test]
fn endpoints_are_built_from_the_issuer() {
    assert_eq!(
        token_endpoint("issuer.example.com"),
        "https://issuer.example.com/oauth/token"
    );
    assert_eq!(
        device_code_endpoint("issuer.example.com"),
        "https://issuer.example.com/oauth/device/code"
    );
}

#[test]
fn form_bodies_are_exact() {
    assert_eq!(
        device_code_form("cid", "offline_access", "https://api.example.com"),
        "client_id=cid&scope=offline_access&audience=https://api.example.com"
    );
    assert_eq!(
        poll_form("cid", "dc-1"),
        "client_id=cid&device_code=dc-1&grant_type=urn:ietf:params:oauth:grant-type:device_code"
    );
    assert_eq!(
        refresh_form("cid", "sec", "rt-1"),
        "client_id=cid&client_secret=sec&grant_type=refresh_token&refresh_token=rt-1"
    );
}

#[test]
fn scan_finds_the_first_matching_access_point() {
    let aps = vec![
        AccessPointInfo { ssid: String::from("Other"), channel: 1, bssid: [9; 6] },
        AccessPointInfo { ssid: String::from("Net"), channel: 6, bssid: [1, 2, 3, 4, 5, 6] },
        AccessPointInfo { ssid: String::from("Net"), channel: 11, bssid: [7; 6] },
    ];
    let found = find_access_point(&aps, &String::from("Net"));
    assert_eq!(found, Some((6, [1, 2, 3, 4, 5, 6])));
    assert!(find_access_point(&aps, &String::from("Nowhere")).is_none());
}

#[test]
fn enrichment_fills_only_undiscovered_settings() {
    let fresh = MyceliumWifiSettings::basic(String::from("Net"), String::from("pw"));
    let enriched = enrich(fresh, Some((6, [1, 2, 3, 4, 5, 6])));
    assert_eq!(enriched.channel, Some(6));
    assert_eq!(enriched.bssid, Some([1, 2, 3, 4, 5, 6]));

    // Already-enriched settings are left alone.
    let again = enrich(enriched, Some((11, [9; 6])));
    assert_eq!(again.channel, Some(6));
    assert_eq!(again.bssid, Some([1, 2, 3, 4, 5, 6]));

    // No discovery, no change.
    let still_basic = enrich(
        MyceliumWifiSettings::basic(String::from("Net"), String::from("pw")),
        None,
    );
    assert_eq!(still_basic.channel, None);
    assert_eq!(still_basic.bssid, None);
}
