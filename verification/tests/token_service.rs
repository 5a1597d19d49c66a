use auth_core::errors::TokenError;
use auth_core::role::Role;
use auth_core::token::{TokenService, TokenType};

fn svc() -> TokenService {
    TokenService::new(7, 900, 604800)
}

#[test]
fn issue_validate_round_trip() {
    let s = svc();
    let tok = s.issue_access(42, Role::Admin, 1000);
    let claims = s.validate(&tok, TokenType::Access, 1500).unwrap();
    assert_eq!(claims.sub, 42);
    assert_eq!(claims.role, Role::Admin);
    assert_eq!(claims.token_type, TokenType::Access);
    assert_eq!(claims.iat, 1000);
    assert_eq!(claims.exp, 1900);
}

#[test]
fn expiry_boundary() {
    let s = svc();
    let tok = s.issue_access(1, Role::User, 1000);
    assert!(s.validate(&tok, TokenType::Access, 1899).is_ok());
    assert_eq!(s.validate(&tok, TokenType::Access, 1900), Err(TokenError::Expired));
    assert_eq!(s.validate(&tok, TokenType::Access, 5000), Err(TokenError::Expired));
}

#[test]
fn wrong_token_type() {
    let s = svc();
    let access = s.issue_access(1, Role::User, 1000);
    let refresh = s.issue_refresh(1, 1000);
    assert_eq!(s.validate(&access, TokenType::Refresh, 1100), Err(TokenError::WrongTokenType));
    assert_eq!(s.validate(&refresh, TokenType::Access, 1100), Err(TokenError::WrongTokenType));
}

#[test]
fn malformed_tokens() {
    let s = svc();
    assert_eq!(s.validate("", TokenType::Access, 0), Err(TokenError::Malformed));
    assert_eq!(s.validate("abc", TokenType::Access, 0), Err(TokenError::Malformed));
    let not_digits = "x".repeat(82);
    assert_eq!(s.validate(&not_digits, TokenType::Access, 0), Err(TokenError::Malformed));
}

#[test]
fn signature_binds_secret() {
    let s1 = TokenService::new(7, 900, 604800);
    let s2 = TokenService::new(8, 900, 604800);
    let tok = s1.issue_access(42, Role::User, 1000);
    assert_eq!(s2.validate(&tok, TokenType::Access, 1100), Err(TokenError::InvalidSignature));
}

#[test]
fn token_shape_is_82_digits() {
    let s = svc();
    let tok = s.issue_access(u64::MAX, Role::SuperAdmin, u64::MAX - 900);
    assert_eq!(tok.len(), 82);
    assert!(tok.chars().all(|c| c.is_ascii_digit()));
}

#[test]
fn tampering_breaks_the_tag() {
    let s = svc();
    let tok = s.issue_access(42, Role::User, 1000);
    // alter one digit of the subject field (offset 2..22)
    let mut chars: Vec<char> = tok.chars().collect();
    let d = chars[21].to_digit(10).unwrap();
    chars[21] = char::from_digit((d + 1) % 10, 10).unwrap();
    let forged: String = chars.into_iter().collect();
    assert_eq!(s.validate(&forged, TokenType::Access, 1100), Err(TokenError::InvalidSignature));
}
