use conduit_core::error::ConduitError;
use conduit_core::hash::PasswordHashService;
use conduit_core::users::NewUser;

#[test]
fn hash_verify_password() {
    let password = "password";
    let hashed = PasswordHashService::hash_password(password).unwrap();
    println!("hashed: {:?}, from: {:?}", hashed, &password);
    PasswordHashService::verify_password(&hashed, password).unwrap();
}

#[test]
fn hash_newuser_verify_password() {
    let new_user = NewUser {
        username: Some("username".to_string()),
        email: Some("email".to_string()),
        password: Some("password".to_string()),
    };
    let hashed = PasswordHashService::hash_password_newuser(new_user).unwrap();
    println!("hashed: {:?}, from: {:?}", hashed.password, "password");
    PasswordHashService::verify_password(&hashed.password, "password").unwrap();
}

#[test]
fn wrong_password_is_invalid_login() {
    let hashed = PasswordHashService::hash_password("password").unwrap();
    let err = PasswordHashService::verify_password(&hashed, "not the password").unwrap_err();
    assert!(matches!(err, ConduitError::InvalidLogin));
}

#[test]
fn malformed_stored_hash_is_mechanism_failure() {
    let err = PasswordHashService::verify_password("not a phc string", "password").unwrap_err();
    assert!(matches!(err, ConduitError::CredentialHashFailure));
}
