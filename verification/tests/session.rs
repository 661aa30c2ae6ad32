use conduit_core::error::ConduitError;
use conduit_core::extractor::{OptionalAuth, RequiredAuth};
use conduit_core::jwt::JwtService;
use conduit_core::AppState;

fn service() -> JwtService {
    JwtService::new(&AppState {
        jwt_secret: "an assuredly secret signing key".to_string(),
    })
}

#[test]
fn issued_token_verifies_to_its_user() {
    let jwt = service();
    let token = jwt.to_token(42, 1000);
    let claims = jwt.get_claim_from_token(&token, 1000).unwrap();
    assert_eq!(claims.user_id, 42);
    assert_eq!(claims.exp, 1000 + 60 * 60 * 2);
}

#[test]
fn expired_token_is_unauthorized() {
    let jwt = service();
    let token = jwt.to_token(42, 1000);
    let err = jwt.get_claim_from_token(&token, 1000 + 60 * 60 * 2).unwrap_err();
    assert!(matches!(err, ConduitError::Unauthorized));
}

#[test]
fn corrupted_token_is_unauthorized_never_another_kind() {
    let jwt = service();
    let token = jwt.to_token(42, 1000);
    let mut corrupted = token.clone();
    corrupted.push('x');
    let err = jwt.get_claim_from_token(&corrupted, 1000).unwrap_err();
    assert!(matches!(err, ConduitError::Unauthorized));

    let err = jwt.get_claim_from_token("no dots at all", 1000).unwrap_err();
    assert!(matches!(err, ConduitError::Unauthorized));

    let err = jwt.get_claim_from_token("1.2.forged-signature", 1000).unwrap_err();
    assert!(matches!(err, ConduitError::Unauthorized));
}

#[test]
fn token_signed_with_other_key_is_unauthorized() {
    let jwt = service();
    let other = JwtService::new(&AppState {
        jwt_secret: "a different key".to_string(),
    });
    let token = other.to_token(42, 1000);
    let err = jwt.get_claim_from_token(&token, 1000).unwrap_err();
    assert!(matches!(err, ConduitError::Unauthorized));
}

#[test]
fn required_auth_header_extraction() {
    let jwt = service();
    let token = jwt.to_token(7, 500);
    let header = format!("Token {}", token);

    let auth = RequiredAuth::from_header(&jwt, Some(&header), 500).unwrap();
    assert_eq!(auth.0, 7);

    let err = RequiredAuth::from_header(&jwt, None, 500).unwrap_err();
    assert!(matches!(err, ConduitError::Unauthorized));

    let bearer = format!("Bearer {}", token);
    let err = RequiredAuth::from_header(&jwt, Some(&bearer), 500).unwrap_err();
    assert!(matches!(err, ConduitError::Unauthorized));

    let trailing = format!("Token {} extra", token);
    let err = RequiredAuth::from_header(&jwt, Some(&trailing), 500).unwrap_err();
    assert!(matches!(err, ConduitError::Unauthorized));
}

#[test]
fn optional_auth_tolerates_absence_not_corruption() {
    let jwt = service();
    let token = jwt.to_token(7, 500);
    let header = format!("Token {}", token);

    let auth = OptionalAuth::from_header(&jwt, None, 500).unwrap();
    assert_eq!(auth.0, None);

    let auth = OptionalAuth::from_header(&jwt, Some(&header), 500).unwrap();
    assert_eq!(auth.0, Some(7));

    let err = OptionalAuth::from_header(&jwt, Some("Token garbage"), 500).unwrap_err();
    assert!(matches!(err, ConduitError::Unauthorized));
}
