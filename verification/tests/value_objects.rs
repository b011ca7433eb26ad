use ferrisprinter::tokens::SerialNumber;
use ferrisprinter::tokens::Token;

#[test]
fn serial_number_keeps_plain_input() {
    let sn = SerialNumber::new("SN-001").unwrap();
    assert_eq!(sn.as_str(), "SN-001");
}

#[test]
fn serial_number_trims_surrounding_whitespace() {
    let sn = SerialNumber::new("  SN-001\t\n").unwrap();
    assert_eq!(sn.as_str(), "SN-001");
}

#[test]
fn serial_number_rejects_empty_input() {
    assert!(SerialNumber::new("").is_err());
}

#[test]
fn serial_number_rejects_whitespace_only_input() {
    assert!(SerialNumber::new(" \t\r\n ").is_err());
}

#[test]
fn token_keeps_plain_input() {
    let token = Token::new("abc123").unwrap();
    assert_eq!(token.as_str(), "abc123");
}

#[test]
fn token_trims_surrounding_whitespace() {
    let token = Token::new("\t abc123 ").unwrap();
    assert_eq!(token.as_str(), "abc123");
}

#[test]
fn token_rejects_empty_input() {
    assert!(Token::new("").is_err());
}

#[test]
fn token_rejects_whitespace_only_input() {
    assert!(Token::new("   ").is_err());
}

#[test]
fn token_keeps_inner_whitespace() {
    let token = Token::new(" a b ").unwrap();
    assert_eq!(token.as_str(), "a b");
}
