use scrypt::password_hash::{PasswordHasher, SaltString};
use scrypt::{Params, Scrypt};
use reddyt::models::accounts::{Account, AccountCreationResult, AccountCredentials, AccountError};

fn credentials(email: &str, password: &str) -> AccountCredentials {
    AccountCredentials::Basic { email: email.to_string(), password: password.as_bytes().to_vec() }
}

/// A PHC string made with cheap scrypt parameters, so that verifying is fast.
fn cheap_hash(password: &str, salt: &str) -> Vec<u8> {
    let params = Params::new(4, 8, 1, 32).expect("valid parameters");
    let salt = SaltString::from_b64(salt).expect("valid salt");
    Scrypt
        .hash_password_customized(password.as_bytes(), None, None, params, &salt)
        .expect("hashing succeeds")
        .to_string()
        .into_bytes()
}

#[test]
fn stored_hash_accepts_its_password_only() {
    let account = Account::new(7, "user@example.com".to_string(), cheap_hash("hunter2", "c2FsdHNhbHRzYWx0"), "c2FsdHNhbHRzYWx0".to_string());
    let found = Account::authenticate(Some(account.clone()), &credentials("user@example.com", "hunter2"));
    assert_eq!(found, Some(account.clone()));
    assert_eq!(Account::authenticate(Some(account.clone()), &credentials("user@example.com", "hunter3")), None);
    assert_eq!(Account::authenticate(Some(account), &credentials("other@example.com", "hunter2")), None);
}

#[test]
fn authentication_without_account() {
    assert_eq!(Account::authenticate(None, &credentials("user@example.com", "pw")), None);
}

#[test]
fn stored_password_that_is_not_a_hash_is_refused() {
    let account = Account::new(1, "a@b.c".to_string(), vec![0xff, 0xfe], "salt".to_string());
    assert_eq!(Account::authenticate(Some(account), &credentials("a@b.c", "pw")), None);
    let account = Account::new(1, "a@b.c".to_string(), b"pw".to_vec(), "salt".to_string());
    assert_eq!(Account::authenticate(Some(account), &credentials("a@b.c", "pw")), None);
}

#[test]
fn creation_result_from_inserted_row() {
    let account = Account::new(3, "a@b.c".to_string(), vec![1, 2], "s".to_string());
    match Account::creation_result(Some(account.clone())) {
        AccountCreationResult::Created(created) => assert_eq!(created, account),
        AccountCreationResult::AlreadyExists => panic!("expected the created account"),
    }
    assert!(matches!(Account::creation_result(None), AccountCreationResult::AlreadyExists));
}

#[test]
fn account_accessors() {
    let account = Account::new(9, "a@b.c".to_string(), vec![4, 5, 6], "salty".to_string());
    assert_eq!(account.id(), 9);
    assert_eq!(account.email(), "a@b.c");
    assert_eq!(account.password(), &[4, 5, 6]);
    assert_eq!(account.password_salt(), "salty");
}


#[test]
fn hashing_with_a_malformed_salt_fails() {
    let res = Account::hash_credentials(credentials("user@example.com", "pw"), "x".to_string());
    assert!(matches!(res, Err(AccountError::PasswordHash(_))));
    let res = Account::hash_credentials(credentials("user@example.com", "pw"), "not base64 !!".to_string());
    assert!(matches!(res, Err(AccountError::PasswordHash(_))));
}
