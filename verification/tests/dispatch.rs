use ferrisprinter::ams::AmsError;
use ferrisprinter::ams::AmsServiceImpl;
use ferrisprinter::memory::FixedAmsProvider;
use ferrisprinter::memory::FixedTokenProvider;
use ferrisprinter::ports::ProviderType;
use ferrisprinter::registry::AmsProviderManager;
use ferrisprinter::registry::TokenProviderManager;
use ferrisprinter::tokens::Token;

#[test]
fn refresh_tag_with_unregistered_provider_fails_without_network_call() {
    let manager: AmsProviderManager<FixedAmsProvider> = AmsProviderManager::new();
    let mut service = AmsServiceImpl::new(manager);

    let result = service.refresh_rfid(
        "1".to_string(),
        ProviderType::BambuLab,
        "DEV-1".to_string(),
    );
    assert!(matches!(result, Err(AmsError::ProviderNotFound)));
}

#[test]
fn refresh_tag_delegates_one_delivery_to_the_registered_adapter() {
    let mut manager = AmsProviderManager::new();
    manager.register_provider(ProviderType::BambuLab, FixedAmsProvider::new(true));

    let result = manager.refresh_rfid_with(
        &ProviderType::BambuLab,
        "2".to_string(),
        "DEV-9".to_string(),
        String::new(),
        String::new(),
    );
    assert!(matches!(result, Some(Ok(()))));

    let adapter = manager.get_provider(&ProviderType::BambuLab).unwrap();
    assert_eq!(adapter.sent_count(), 1);
    let entry = adapter.sent_entry(0);
    assert_eq!(entry.0, "2");
    assert_eq!(entry.1, "DEV-9");
}

#[test]
fn refresh_tag_reports_a_failed_delivery_as_command_failed() {
    let mut manager = AmsProviderManager::new();
    manager.register_provider(ProviderType::BambuLab, FixedAmsProvider::new(false));
    let mut service = AmsServiceImpl::new(manager);

    let result = service.refresh_rfid(
        "1".to_string(),
        ProviderType::BambuLab,
        "DEV-1".to_string(),
    );
    assert!(matches!(result, Err(AmsError::CommandFailed)));
}

#[test]
fn registry_lookup_is_total_and_overwriting() {
    let mut manager = TokenProviderManager::new();
    assert!(manager.get_provider(&ProviderType::BambuLab).is_none());

    let first = FixedTokenProvider::new(
        Token::new("A1").unwrap(),
        Token::new("R1").unwrap(),
        true,
    );
    manager.register_provider(ProviderType::BambuLab, first);
    assert!(manager.get_provider(&ProviderType::BambuLab).is_some());

    let second = FixedTokenProvider::new(
        Token::new("A2").unwrap(),
        Token::new("R2").unwrap(),
        false,
    );
    manager.register_provider(ProviderType::BambuLab, second);

    // The later registration decides; its adapter rejects credentials.
    let result = manager.authenticate_with(
        &ProviderType::BambuLab,
        "alice".to_string(),
        "pw".to_string(),
    );
    assert!(matches!(result, Some(Err(_))));
}

#[test]
fn registry_records_each_authentication_attempt() {
    let mut manager = TokenProviderManager::new();
    manager.register_provider(
        ProviderType::BambuLab,
        FixedTokenProvider::new(Token::new("A1").unwrap(), Token::new("R1").unwrap(), true),
    );

    let issued = manager
        .authenticate_with(&ProviderType::BambuLab, "alice".to_string(), "pw".to_string())
        .unwrap()
        .unwrap();
    assert_eq!(issued.access_token.as_str(), "A1");
    assert_eq!(issued.refresh_token.as_str(), "R1");

    let adapter = manager.get_provider(&ProviderType::BambuLab).unwrap();
    assert_eq!(adapter.attempt_count(), 1);
}

#[test]
fn unregistered_identity_is_answered_without_touching_adapters() {
    let mut manager: TokenProviderManager<FixedTokenProvider> = TokenProviderManager::new();
    let result = manager.authenticate_with(
        &ProviderType::BambuLab,
        "alice".to_string(),
        "pw".to_string(),
    );
    assert!(result.is_none());
}
