use newsletter::authentication::{
    hash_password_with_salt_bytes,
    compute_password_hash, validate_credentials, verify_password_hash, AuthError, Credentials,
};
use uuid::Uuid;

const DEFAULT_HASH: &str = "$argon2id$v=19$m=19456,t=2,p=1$gZiV/M1gPc22ElAH/Jh1Hw$CWOrkoo7oJBQ/iyh7uJ0LO2aLEfrHwTWllSAxT0zRno";

fn credentials(username: &str, password: &str) -> Credentials {
    Credentials { username: username.to_string(), password: password.to_string() }
}

#[test]
fn a_computed_hash_is_a_phc_string_that_admits_the_password() {
    let hash = compute_password_hash("correct horse battery").unwrap();
    assert_ne!(hash, "correct horse battery");
    assert!(hash.starts_with("$argon2id$v=19$m=19456,t=2,p=1$"));
    assert_eq!(hash.len(), "$argon2id$v=19$m=19456,t=2,p=1$".len() + 22 + 1 + 43);
    assert_eq!(&hash[31 + 22..31 + 23], "$");
    assert!(verify_password_hash(&hash, "correct horse battery").is_ok());
}

#[test]
fn a_wrong_password_is_invalid_credentials() {
    let hash = compute_password_hash("correct horse battery").unwrap();
    match verify_password_hash(&hash, "wrong horse battery") {
        Err(AuthError::InvalidCredentials(reason)) => assert_eq!(reason, "Invalid password"),
        other => panic!("unexpected: {:?}", other),
    }
}

#[test]
fn a_malformed_hash_is_an_unexpected_error() {
    match verify_password_hash("not a phc string", "whatever") {
        Err(AuthError::UnexpectedError(reason)) => {
            assert_eq!(reason, "Failed to parse hash in PHC string format")
        }
        other => panic!("unexpected: {:?}", other),
    }
}

#[test]
fn the_stored_user_is_accepted_with_the_right_password() {
    let id = Uuid::from_u128(7);
    let hash = compute_password_hash("s3cret-passphrase").unwrap();
    let r = validate_credentials(&credentials("alice", "s3cret-passphrase"), Ok(Some((id, hash))));
    assert_eq!(r.unwrap(), id);
}

#[test]
fn the_stored_user_is_refused_with_a_wrong_password() {
    let id = Uuid::from_u128(7);
    let hash = compute_password_hash("s3cret-passphrase").unwrap();
    match validate_credentials(&credentials("alice", "guess"), Ok(Some((id, hash)))) {
        Err(AuthError::InvalidCredentials(reason)) => assert_eq!(reason, "Invalid password"),
        other => panic!("unexpected: {:?}", other),
    }
}

#[test]
fn an_unknown_user_is_refused() {
    match validate_credentials(&credentials("random-user", "random-password"), Ok(None)) {
        Err(AuthError::InvalidCredentials(reason)) => assert_eq!(reason, "Invalid password"),
        other => panic!("unexpected: {:?}", other),
    }
}

#[test]
fn a_failed_lookup_is_an_unexpected_error() {
    let r = validate_credentials(&credentials("alice", "pw"), Err("connection refused".to_string()));
    match r {
        Err(AuthError::UnexpectedError(reason)) => assert_eq!(reason, "connection refused"),
        other => panic!("unexpected: {:?}", other),
    }
}

#[test]
fn a_stored_malformed_hash_is_an_unexpected_error() {
    let r = validate_credentials(
        &credentials("alice", "pw"),
        Ok(Some((Uuid::from_u128(1), "garbage".to_string()))),
    );
    assert!(matches!(r, Err(AuthError::UnexpectedError(_))));
}

#[test]
fn the_default_hash_is_a_valid_phc_string() {
    // An unknown user's password is checked against this hash; it must parse.
    assert!(matches!(
        verify_password_hash(DEFAULT_HASH, "anything"),
        Err(AuthError::InvalidCredentials(_))
    ));
}

#[test]
fn each_hash_gets_its_own_salt() {
    let first = compute_password_hash("same password").unwrap();
    let second = compute_password_hash("same password").unwrap();
    assert_ne!(first, second);
    assert_ne!(&first[31..53], &second[31..53]);
    assert!(verify_password_hash(&first, "same password").is_ok());
    assert!(verify_password_hash(&second, "same password").is_ok());
}

#[test]
fn an_empty_password_is_hashed_too() {
    let hash = compute_password_hash("").unwrap();
    assert!(verify_password_hash(&hash, "").is_ok());
}

#[test]
fn hashing_under_given_salt_bytes_is_deterministic() {
    let first = hash_password_with_salt_bytes("pw-123456789", &[0u8; 16]).unwrap();
    let again = hash_password_with_salt_bytes("pw-123456789", &[0u8; 16]).unwrap();
    assert_eq!(first, again);
    assert!(first.starts_with("$argon2id$v=19$m=19456,t=2,p=1$AAAAAAAAAAAAAAAAAAAAAA$"));
    assert!(verify_password_hash(&first, "pw-123456789").is_ok());
    let other = hash_password_with_salt_bytes("pw-123456789", &[1u8; 16]).unwrap();
    assert_ne!(first, other);
    assert!(other.starts_with("$argon2id$v=19$m=19456,t=2,p=1$AQEBAQEBAQEBAQEBAQEBAQ$"));
}
