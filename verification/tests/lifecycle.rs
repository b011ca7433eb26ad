use ferrisprinter::memory::FixedTokenProvider;
use ferrisprinter::memory::InMemoryAccessTokenRepository;
use ferrisprinter::memory::InMemoryRefreshTokenRepository;
use ferrisprinter::ports::AccessTokenRepository;
use ferrisprinter::ports::ProviderType;
use ferrisprinter::ports::RefreshTokenRepository;
use ferrisprinter::refresh_token::CreateRefreshTokenError;
use ferrisprinter::refresh_token::FindRefreshTokenError;
use ferrisprinter::registry::TokenProviderManager;
use ferrisprinter::token_service::AccessTokenServiceImpl;
use ferrisprinter::token_service::RefreshTokenServiceImpl;
use ferrisprinter::tokens::SerialNumber;
use ferrisprinter::tokens::Token;

type Service = RefreshTokenServiceImpl<
    InMemoryRefreshTokenRepository,
    FixedTokenProvider,
    AccessTokenServiceImpl<InMemoryAccessTokenRepository>,
>;

fn service_with(manager: TokenProviderManager<FixedTokenProvider>) -> Service {
    RefreshTokenServiceImpl::new(
        InMemoryRefreshTokenRepository::new(),
        AccessTokenServiceImpl::new(InMemoryAccessTokenRepository::new()),
        manager,
    )
}

fn fake_provider(access: &str, refresh: &str, accept: bool) -> FixedTokenProvider {
    FixedTokenProvider::new(
        Token::new(access).unwrap(),
        Token::new(refresh).unwrap(),
        accept,
    )
}

#[test]
fn issue_tokens_with_unregistered_provider_fails_without_writes() {
    let mut service = service_with(TokenProviderManager::new());

    assert!(matches!(
        service.find_by_serial_number("SN-001"),
        Err(FindRefreshTokenError::NotFound { .. })
    ));

    let result = service.create_refresh_token(
        "alice".to_string(),
        "pw".to_string(),
        "SN-001",
        ProviderType::BambuLab,
    );
    assert!(matches!(result, Err(CreateRefreshTokenError::ProviderNotFound)));

    assert!(matches!(
        service.find_by_serial_number("SN-001"),
        Err(FindRefreshTokenError::NotFound { .. })
    ));
}

#[test]
fn issue_tokens_with_rejected_credentials_leaves_no_partial_state() {
    let mut manager = TokenProviderManager::new();
    manager.register_provider(ProviderType::BambuLab, fake_provider("A1", "R1", false));
    let mut service = service_with(manager);

    let result = service.create_refresh_token(
        "alice".to_string(),
        "bad-pw".to_string(),
        "SN-001",
        ProviderType::BambuLab,
    );
    assert!(matches!(result, Err(CreateRefreshTokenError::AuthenticationFailed)));

    assert!(matches!(
        service.find_by_serial_number("SN-001"),
        Err(FindRefreshTokenError::NotFound { .. })
    ));
}

#[test]
fn issue_tokens_with_empty_serial_number_is_rejected_before_any_work() {
    let mut manager = TokenProviderManager::new();
    manager.register_provider(ProviderType::BambuLab, fake_provider("A1", "R1", true));
    let mut service = service_with(manager);

    let result = service.create_refresh_token(
        "alice".to_string(),
        "pw".to_string(),
        "   ",
        ProviderType::BambuLab,
    );
    assert!(matches!(result, Err(CreateRefreshTokenError::InvalidSerialNumber)));
}

#[test]
fn issued_refresh_token_is_found_under_its_serial_number() {
    let mut manager = TokenProviderManager::new();
    manager.register_provider(ProviderType::BambuLab, fake_provider("A1", "R1", true));
    let mut service = service_with(manager);

    let issued = service
        .create_refresh_token(
            "alice".to_string(),
            "pw".to_string(),
            "SN-001",
            ProviderType::BambuLab,
        )
        .unwrap();
    assert_eq!(issued.serial_number.as_str(), "SN-001");
    assert_eq!(issued.token.as_str(), "R1");

    let found = service.find_by_serial_number("SN-001").unwrap();
    assert_eq!(found.token.as_str(), "R1");
    assert_eq!(found.id, issued.id);
}

#[test]
fn second_issuance_replaces_the_row_under_a_fresh_identity() {
    let mut manager = TokenProviderManager::new();
    manager.register_provider(ProviderType::BambuLab, fake_provider("A2", "R2", true));
    let mut service = service_with(manager);

    let first = service
        .create_refresh_token(
            "alice".to_string(),
            "pw".to_string(),
            "SN-001",
            ProviderType::BambuLab,
        )
        .unwrap();
    let second = service
        .create_refresh_token(
            "alice".to_string(),
            "pw".to_string(),
            "SN-001",
            ProviderType::BambuLab,
        )
        .unwrap();

    assert_ne!(second.id, first.id);

    let found = service.find_by_serial_number("SN-001").unwrap();
    assert_eq!(found.id, second.id);
    assert_eq!(found.token.as_str(), "R2");
}

#[test]
fn issuance_for_one_serial_number_leaves_other_rows_alone() {
    let mut manager = TokenProviderManager::new();
    manager.register_provider(ProviderType::BambuLab, fake_provider("A1", "R1", true));
    let mut service = service_with(manager);

    service
        .create_refresh_token(
            "alice".to_string(),
            "pw".to_string(),
            "SN-001",
            ProviderType::BambuLab,
        )
        .unwrap();
    service
        .create_refresh_token(
            "alice".to_string(),
            "pw".to_string(),
            "SN-002",
            ProviderType::BambuLab,
        )
        .unwrap();

    assert_eq!(service.find_by_serial_number("SN-001").unwrap().token.as_str(), "R1");
    assert_eq!(service.find_by_serial_number("SN-002").unwrap().token.as_str(), "R1");
}

#[test]
fn lookup_uses_the_serial_number_verbatim() {
    let mut manager = TokenProviderManager::new();
    manager.register_provider(ProviderType::BambuLab, fake_provider("A1", "R1", true));
    let mut service = service_with(manager);

    service
        .create_refresh_token(
            "alice".to_string(),
            "pw".to_string(),
            "  SN-001  ",
            ProviderType::BambuLab,
        )
        .unwrap();

    // The row is stored under the trimmed serial number.
    assert!(service.find_by_serial_number("SN-001").is_ok());
    assert!(matches!(
        service.find_by_serial_number("  SN-001  "),
        Err(FindRefreshTokenError::NotFound { .. })
    ));
}

#[test]
fn access_token_store_round_trip() {
    let mut repo = InMemoryAccessTokenRepository::new();
    let serial = SerialNumber::new("SN-001").unwrap();
    let created = repo
        .create_access_token(&Token::new("A1").unwrap(), &serial)
        .unwrap();
    assert_eq!(created.serial_number.as_str(), "SN-001");
    assert_eq!(created.token.as_str(), "A1");

    let found = repo.find_by_serial_number("SN-001").unwrap();
    assert_eq!(found.token.as_str(), "A1");
    assert_eq!(found.id, created.id);

    repo.delete_by_serial_number("SN-001").unwrap();
    assert!(repo.find_by_serial_number("SN-001").is_err());
}

#[test]
fn refresh_token_store_deletes_only_the_named_serial() {
    let mut repo = InMemoryRefreshTokenRepository::new();
    let first = SerialNumber::new("SN-001").unwrap();
    let second = SerialNumber::new("SN-002").unwrap();
    repo.create_refresh_token(&Token::new("R1").unwrap(), &first).unwrap();
    repo.create_refresh_token(&Token::new("R2").unwrap(), &second).unwrap();

    repo.delete_by_serial_number("SN-001").unwrap();

    assert!(repo.find_by_serial_number("SN-001").is_err());
    assert_eq!(repo.find_by_serial_number("SN-002").unwrap().token.as_str(), "R2");
}
