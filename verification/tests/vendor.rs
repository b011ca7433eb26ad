use ferrisprinter::bambulab::BambuLabProviderAmsService;
use ferrisprinter::bambulab::BambuLabProviderTokenService;
use ferrisprinter::tokens::CreateTokensError;

fn mock_headers_with_cookies() -> Vec<String> {
    vec![
        "refreshToken=mock_refresh_token; HttpOnly".to_string(),
        "token=mock_access_token; HttpOnly".to_string(),
    ]
}

fn mock_headers_without_cookies() -> Vec<String> {
    Vec::new()
}

#[test]
fn test_extract_token_from_cookie_success() {
    let headers = mock_headers_with_cookies();
    println!("Headers: {:?}", headers);

    let refresh_token =
        BambuLabProviderTokenService::extract_token_from_cookie(&headers, "refreshToken");
    let access_token = BambuLabProviderTokenService::extract_token_from_cookie(&headers, "token");

    assert_eq!(refresh_token, Some("mock_refresh_token".to_string()));
    assert_eq!(access_token, Some("mock_access_token".to_string()));
}

#[test]
fn test_extract_token_from_cookie_missing() {
    let headers = mock_headers_without_cookies();

    let refresh_token =
        BambuLabProviderTokenService::extract_token_from_cookie(&headers, "refreshToken");
    let access_token = BambuLabProviderTokenService::extract_token_from_cookie(&headers, "token");

    assert!(refresh_token.is_none());
    assert!(access_token.is_none());
}

#[test]
fn extract_token_parses_the_cookie_rather_than_echoing_it() {
    let headers = vec!["name=value; Secure; HttpOnly".to_string()];
    let value = BambuLabProviderTokenService::extract_token_from_cookie(&headers, "name");
    assert_eq!(value, Some("value".to_string()));
}

#[test]
fn tokens_are_read_from_sign_in_response_cookies() {
    let headers = mock_headers_with_cookies();
    let tokens = BambuLabProviderTokenService::tokens_from_response_cookies(&headers).unwrap();
    assert_eq!(tokens.refresh_token.as_str(), "mock_refresh_token");
    assert_eq!(tokens.access_token.as_str(), "mock_access_token");
}

#[test]
fn a_missing_cookie_is_the_providers_failure() {
    let headers = vec!["token=mock_access_token; HttpOnly".to_string()];
    let result = BambuLabProviderTokenService::tokens_from_response_cookies(&headers);
    assert!(matches!(result, Err(CreateTokensError::ProviderError)));
}

#[test]
fn a_whitespace_only_cookie_value_is_an_invalid_token() {
    let headers = vec![
        "refreshToken=%20; HttpOnly".to_string(),
        "token=mock_access_token; HttpOnly".to_string(),
    ];
    // The raw value "%20" is not decoded, so this one is a plain non-empty
    // token; an actually empty value is rejected.
    assert!(BambuLabProviderTokenService::tokens_from_response_cookies(&headers).is_ok());

    let empty = vec![
        "refreshToken=; HttpOnly".to_string(),
        "token=mock_access_token; HttpOnly".to_string(),
    ];
    let result = BambuLabProviderTokenService::tokens_from_response_cookies(&empty);
    assert!(matches!(result, Err(CreateTokensError::InvalidToken)));
}

#[test]
fn login_url_is_kept_as_configured() {
    let service = BambuLabProviderTokenService::new(
        "https://api.example".to_string(),
        "https://api.example/api/sign-in/form".to_string(),
    );
    assert_eq!(service.login_url(), "https://api.example/api/sign-in/form");
}

#[test]
fn request_topic_names_the_device() {
    let topic = BambuLabProviderAmsService::request_topic("DEV123");
    assert_eq!(topic, "device/DEV123/request");
}

#[test]
fn refresh_payload_is_the_vendor_envelope() {
    let payload = BambuLabProviderAmsService::refresh_rfid_payload("1");
    assert_eq!(
        payload,
        "{\"print\":{\"command\":\"gcode_line\",\"param\":\"M620 R1 \\n\",\"sequence_id\":\"0\"}}"
    );
}

#[test]
fn refresh_payload_is_well_formed_json() {
    let payload = BambuLabProviderAmsService::refresh_rfid_payload("7");
    let value: serde_json::Value = serde_json::from_str(&payload).unwrap();
    assert_eq!(value["print"]["command"], "gcode_line");
    assert_eq!(value["print"]["param"], "M620 R7 \n");
    assert_eq!(value["print"]["sequence_id"], "0");
}

#[test]
fn refresh_payload_escapes_the_tray_slot() {
    let payload = BambuLabProviderAmsService::refresh_rfid_payload("a\"b\\c");
    let value: serde_json::Value = serde_json::from_str(&payload).unwrap();
    assert_eq!(value["print"]["param"], "M620 Ra\"b\\c \n");
}

#[test]
fn broker_url_is_kept_as_configured() {
    let service = BambuLabProviderAmsService::new("ssl://us.mqtt.example".to_string());
    assert_eq!(service.broker_url(), "ssl://us.mqtt.example");
}
