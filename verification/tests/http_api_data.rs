use ferrisprinter::http_api::ApiError;
use ferrisprinter::http_api::ApiResponseBody;
use ferrisprinter::http_api::CreateRefreshTokenHttpRequestBody;
use ferrisprinter::http_api::CreateRefreshTokenResponseData;
use ferrisprinter::http_api::ParseCreateRefreshTokenHttpRequestBodyError;
use ferrisprinter::refresh_token::CreateRefreshTokenError;
use ferrisprinter::refresh_token::RefreshToken;
use ferrisprinter::tokens::SerialNumber;
use ferrisprinter::tokens::Token;

#[test]
fn duplicate_rows_are_the_callers_to_mend() {
    let error = CreateRefreshTokenError::Duplicate {
        name: SerialNumber::new("SN-001").unwrap(),
    };
    let api_error = ApiError::from_create_refresh_token_error(&error);
    assert_eq!(api_error.status_code(), 422);
    assert_eq!(
        api_error.response_message(),
        "Refresh token with serial number SN-001 already exists"
    );
}

#[test]
fn internal_causes_are_not_echoed_to_the_caller() {
    let error = CreateRefreshTokenError::DatabaseError("connection reset".to_string());
    let api_error = ApiError::from_create_refresh_token_error(&error);
    assert_eq!(api_error.status_code(), 500);
    assert_eq!(api_error.response_message(), "Internal server error");

    let api_error = ApiError::from_create_refresh_token_error(
        &CreateRefreshTokenError::ProviderNotFound,
    );
    assert_eq!(api_error.status_code(), 500);
    assert_eq!(api_error.response_message(), "Internal server error");
}

#[test]
fn parse_errors_name_the_empty_value() {
    let api_error = ApiError::from_parse_error(
        &ParseCreateRefreshTokenHttpRequestBodyError::SerialNumber(
            ferrisprinter::tokens::SerialNumberEmptyError,
        ),
    );
    assert_eq!(api_error.status_code(), 422);
    assert_eq!(api_error.response_message(), "Serial number cannot be empty");

    let api_error = ApiError::from_parse_error(
        &ParseCreateRefreshTokenHttpRequestBodyError::Token(ferrisprinter::tokens::TokenEmptyError),
    );
    assert_eq!(api_error.status_code(), 422);
    assert_eq!(api_error.response_message(), "Token cannot be empty");
}

#[test]
fn response_body_repeats_the_status() {
    let body = ApiResponseBody::new(201u16, "created".to_string());
    assert_eq!(body.status_code(), 201);
    assert_eq!(body.data(), "created");

    let error_body = ApiResponseBody::new_error(500u16, "Internal server error".to_string());
    assert_eq!(error_body.status_code(), 500);
    assert_eq!(error_body.data().message, "Internal server error");
}

#[test]
fn issuance_response_carries_the_row_identity_in_decimal() {
    let record = RefreshToken::new(
        1234567890123456789u128,
        SerialNumber::new("SN-001").unwrap(),
        Token::new("R1").unwrap(),
        10,
        10,
    );
    let data = CreateRefreshTokenResponseData::of_refresh_token(&record);
    assert_eq!(data.id(), "1234567890123456789");

    let zero = RefreshToken::new(
        0,
        SerialNumber::new("SN-001").unwrap(),
        Token::new("R1").unwrap(),
        10,
        10,
    );
    assert_eq!(CreateRefreshTokenResponseData::of_refresh_token(&zero).id(), "0");
}

#[test]
fn request_body_validation_trims_the_serial_number() {
    let body = CreateRefreshTokenHttpRequestBody::new(
        "alice".to_string(),
        "pw".to_string(),
        " SN-001 ".to_string(),
    );
    let request = body.try_into_domain().unwrap();
    assert_eq!(request.username(), "alice");
    assert_eq!(request.password(), "pw");
    assert_eq!(request.serial_number().as_str(), "SN-001");
}

#[test]
fn request_body_validation_rejects_an_empty_serial_number() {
    let body = CreateRefreshTokenHttpRequestBody::new(
        "alice".to_string(),
        "pw".to_string(),
        "  ".to_string(),
    );
    assert!(matches!(
        body.try_into_domain(),
        Err(ParseCreateRefreshTokenHttpRequestBodyError::SerialNumber(_))
    ));
}
