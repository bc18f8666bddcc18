//! Accounts and their credentials: password hashing with scrypt on
//! creation, and checking credentials against a stored account.

use scrypt::password_hash::rand_core::{OsRng, RngCore};
use scrypt::password_hash::{Error as PasswordHashError, PasswordHash, PasswordHasher, PasswordVerifier, Salt, SaltString};
use scrypt::Scrypt;
use sqlx::Error as SqlxError;
use vstd::prelude::*;
use vstd::slice::slice_to_vec;
use vstd::utf8::{decode_utf8, encode_utf8, encode_utf8_decode_utf8, encode_utf8_valid_utf8, valid_utf8};

use crate::utils::encoding::string_from_utf8;
use crate::utils::strings::str_eq;

verus! {

#[verifier::external_type_specification]
#[verifier::external_body]
pub struct ExSqlxError(SqlxError);

#[verifier::external_type_specification]
#[verifier::external_body]
pub struct ExPasswordHashError(PasswordHashError);

/// Server side errors of account operations; client errors such as an
/// existing email or a wrong password have their own representation.
#[derive(Debug)]
pub enum AccountError {
    /// Error while querying the database.
    DatabaseConnection(SqlxError),
    /// Error with password hashing operations.
    PasswordHash(PasswordHashError),
    /// The operating system could not provide randomness for a salt.
    SaltGeneration,
}

/// Account creation outcome: the created account, or the report that an
/// account with the same email already exists.
pub enum AccountCreationResult {
    /// The account was successfully created.
    Created(Account),
    /// The account already exists, checked against email.
    AlreadyExists,
}

/// Account credentials.
#[derive(Debug, Clone, PartialEq, PartialOrd)]
pub enum AccountCredentials {
    /// Basic authentication: email and unencrypted password.
    Basic { email: String, password: Vec<u8> },
}

/// The values of account credentials.
pub enum AccountCredentialsView {
    Basic { email: Seq<char>, password: Seq<u8> },
}

impl View for AccountCredentials {
    type V = AccountCredentialsView;

    open spec fn view(&self) -> AccountCredentialsView {
        match self {
            AccountCredentials::Basic { email, password } => AccountCredentialsView::Basic {
                email: email@,
                password: password@,
            },
        }
    }
}

/// Model representation of the accounts database schema.
#[derive(Debug, PartialEq, PartialOrd, Clone)]
pub struct Account {
    id: i32,
    email: String,
    password: Vec<u8>,
    password_salt: String,
}

/// The values of an account.
pub struct AccountView {
    pub id: i32,
    pub email: Seq<char>,
    pub password: Seq<u8>,
    pub password_salt: Seq<char>,
}

impl View for Account {
    type V = AccountView;

    closed spec fn view(&self) -> AccountView {
        AccountView {
            id: self.id,
            email: self.email@,
            password: self.password@,
            password_salt: self.password_salt@,
        }
    }
}

/// The values that creating an account stores: the email, the scrypt
/// password hash (the bytes of its PHC string) and the salt.
pub struct NewAccount {
    pub email: String,
    pub password: Vec<u8>,
    pub salt: String,
}

/// The PHC string that scrypt (default parameters, through the
/// `password-hash` API) makes of `password` with the Base64 salt `salt`
/// (`None` when hashing fails, e.g. on a malformed salt).
pub uninterp spec fn scrypt_phc_hash(password: Seq<u8>, salt: Seq<char>) -> Option<Seq<char>>;

/// Whether scrypt verification of `password` against the PHC string `phc`
/// succeeds.
pub uninterp spec fn scrypt_phc_verifies(password: Seq<u8>, phc: Seq<char>) -> bool;

/// The number of Base64 characters of a generated salt (16 bytes, unpadded).
pub const SALT_LENGTH: usize = 22;

/// Fills 16 bytes from `OsRng` with `try_fill_bytes` and encodes them with
/// `SaltString::encode_b64`, as `SaltString::generate` does, but reports a
/// failure of the operating system's randomness as `None` where `generate`
/// panics. The salt is random; as `password-hash` documents, it is the
/// unpadded Base64 of 16 bytes, 22 characters.
#[verifier::external_body]
fn generate_salt() -> (salt: Option<String>)
    ensures
        salt matches Some(s) ==> s@.len() == SALT_LENGTH,
{
    let mut bytes = [0u8; 16];
    OsRng.try_fill_bytes(&mut bytes).ok()?;
    SaltString::encode_b64(&bytes).ok().map(|salt| salt.as_str().to_string())
}

/// The start of a PHC string of the scrypt algorithm.
pub open spec fn scrypt_phc_prefix() -> Seq<char> {
    seq!['$', 's', 'c', 'r', 'y', 'p', 't', '$']
}

/// `phc` is a PHC string of the scrypt algorithm: it begins `$scrypt$`.
pub open spec fn is_scrypt_phc(phc: Seq<char>) -> bool {
    phc.len() >= 8 && phc.take(8) == scrypt_phc_prefix()
}

/// Calls `Salt::from_b64` and `Scrypt.hash_password`, and serialises the
/// hash as a PHC string. The result is `scrypt_phc_hash` of the arguments;
/// as `password-hash` documents for `verify_password` (it rehashes with the
/// parameters and salt of the PHC string and compares), a hash that was
/// produced verifies against the password it was made from. The PHC string
/// is written `$scrypt$` then the parameters, salt and hash (the `Display`
/// of `PasswordHash`).
#[verifier::external_body]
fn scrypt_hash(password: &[u8], salt: &str) -> (res: Result<String, PasswordHashError>)
    ensures
        match res {
            Ok(phc) => scrypt_phc_hash(password@, salt@) == Some(phc@) && scrypt_phc_verifies(password@, phc@)
                && is_scrypt_phc(phc@),
            Err(_) => scrypt_phc_hash(password@, salt@) is None,
        },
{
    let salt = Salt::from_b64(salt)?;
    let hash = Scrypt.hash_password(password, salt)?;
    Ok(hash.serialize().as_str().to_string())
}

/// Calls `PasswordHash::new` and `Scrypt.verify_password`; a string that is
/// not a PHC string does not verify.
#[verifier::external_body]
fn scrypt_verify(password: &[u8], phc: &str) -> (verified: bool)
    ensures
        verified == scrypt_phc_verifies(password@, phc@),
{
    match PasswordHash::new(phc) {
        Ok(hash) => Scrypt.verify_password(password, &hash).is_ok(),
        Err(_) => false,
    }
}

/// `stored` holds the bytes of the scrypt hash of `password` with `salt`, a
/// PHC string beginning `$scrypt$` that verifies against the password.
pub open spec fn hashed_with(stored: Seq<u8>, salt: Seq<char>, password: Seq<u8>) -> bool {
    match scrypt_phc_hash(password, salt) {
        Some(phc) => stored == encode_utf8(phc) && scrypt_phc_verifies(password, phc) && is_scrypt_phc(phc),
        None => false,
    }
}

/// Whether an account accepts the credentials: same email, and the password
/// verifies against the stored hash.
pub open spec fn accepts(account: AccountView, credentials: AccountCredentialsView) -> bool {
    match credentials {
        AccountCredentialsView::Basic { email, password } => {
            &&& account.email == email
            &&& valid_utf8(account.password)
            &&& scrypt_phc_verifies(password, decode_utf8(account.password))
        },
    }
}

impl Account {
    /// An account holding the given values.
    pub fn new(id: i32, email: String, password: Vec<u8>, password_salt: String) -> (account: Self)
        ensures
            account@ == (AccountView { id, email: email@, password: password@, password_salt: password_salt@ }),
    {
        Account { id, email, password, password_salt }
    }

    /// Hashes the password of the credentials with the given Base64 salt:
    /// the values to store for a new account, or the hashing error.
    pub fn hash_credentials(credentials: AccountCredentials, salt: String) -> (res: Result<NewAccount, AccountError>)
        ensures
            match credentials@ {
                AccountCredentialsView::Basic { email, password } => match res {
                    Ok(new) => new.email@ == email && new.salt@ == salt@ && hashed_with(new.password@, salt@, password),
                    Err(err) => err is PasswordHash && scrypt_phc_hash(password, salt@) is None,
                },
            },
    {
        match credentials {
            AccountCredentials::Basic { email, password } => {
                let phc = match scrypt_hash(password.as_slice(), salt.as_str()) {
                    Ok(phc) => phc,
                    Err(err) => return Err(AccountError::PasswordHash(err)),
                };
                let stored = phc.as_str().as_bytes_vec();
                Ok(NewAccount { email, password: stored, salt })
            },
        }
    }

    /// Hashes the password of the credentials with the salt that the salt
    /// generator yielded: `SaltGeneration` exactly when it yielded none;
    /// otherwise the values to store, with that salt, exactly when scrypt
    /// hashes the password with it, and the hashing error when it does not.
    pub fn prepare_account_with(credentials: AccountCredentials, salt: Option<String>) -> (res: Result<NewAccount, AccountError>)
        ensures
            (res matches Err(AccountError::SaltGeneration)) <==> salt is None,
            match (credentials@, salt) {
                (AccountCredentialsView::Basic { email, password }, Some(s)) => match scrypt_phc_hash(password, s@) {
                    Some(phc) => res matches Ok(new) && new.email@ == email && new.salt@ == s@ && new.password@
                        == encode_utf8(phc) && hashed_with(new.password@, s@, password),
                    None => res matches Err(AccountError::PasswordHash(_)),
                },
                (_, None) => true,
            },
    {
        let salt = match salt {
            Some(salt) => salt,
            None => return Err(AccountError::SaltGeneration),
        };
        Self::hash_credentials(credentials, salt)
    }

    /// Hashes the password of the credentials with a fresh random salt: the
    /// values to store for a new account. Fails with `SaltGeneration` only
    /// when the operating system provides no randomness, and with
    /// `PasswordHash` only when hashing with the generated salt fails (see
    /// `prepare_account_with`).
    pub fn prepare_account(credentials: AccountCredentials) -> (res: Result<NewAccount, AccountError>)
        ensures
            match credentials@ {
                AccountCredentialsView::Basic { email, password } => match res {
                    Ok(new) => new.email@ == email && new.salt@.len() == SALT_LENGTH && hashed_with(
                        new.password@,
                        new.salt@,
                        password,
                    ),
                    Err(err) => err is SaltGeneration || (err is PasswordHash && exists|salt: Seq<char>|
                        salt.len() == SALT_LENGTH && #[trigger] scrypt_phc_hash(password, salt) is None),
                },
            },
    {
        let salt = generate_salt();
        let ghost generated = salt;
        let res = Self::prepare_account_with(credentials, salt);
        assert(res matches Err(AccountError::PasswordHash(_)) ==> scrypt_phc_hash(
            credentials@->password,
            generated->0@,
        ) is None);
        res
    }

    /// The outcome of account creation from the row that the insertion
    /// returned: none means that the email is taken.
    pub fn creation_result(inserted: Option<Account>) -> (res: AccountCreationResult)
        ensures
            match inserted {
                Some(account) => res matches AccountCreationResult::Created(created) && created@ == account@,
                None => res is AlreadyExists,
            },
    {
        match inserted {
            Some(account) => AccountCreationResult::Created(account),
            None => AccountCreationResult::AlreadyExists,
        }
    }

    /// Authenticates with the credentials against the account found for
    /// their email: the account when it accepts them, otherwise `None`
    /// (incorrect credentials are no error).
    pub fn authenticate(found: Option<Account>, credentials: &AccountCredentials) -> (res: Option<Account>)
        ensures
            match found {
                Some(account) => if accepts(account@, credentials@) {
                    res matches Some(a) && a@ == account@
                } else {
                    res is None
                },
                None => res is None,
            },
            res matches Some(a) ==> {
                &&& found matches Some(f) && a@ == f@
                &&& a@.email == credentials@->email
                &&& valid_utf8(a@.password)
                &&& scrypt_phc_verifies(credentials@->password, decode_utf8(a@.password))
            },
    {
        let account = match found {
            Some(account) => account,
            None => return None,
        };
        match credentials {
            AccountCredentials::Basic { email, password } => {
                if !str_eq(account.email.as_str(), email.as_str()) {
                    return None;
                }
                let phc = match string_from_utf8(slice_to_vec(account.password.as_slice())) {
                    Some(phc) => phc,
                    None => return None,
                };
                if scrypt_verify(password.as_slice(), phc.as_str()) {
                    Some(account)
                } else {
                    None
                }
            },
        }
    }

    /// The primary key of the account.
    pub fn id(&self) -> (id: i32)
        ensures
            id == self@.id,
    {
        self.id
    }

    /// The account email.
    pub fn email(&self) -> (email: &str)
        ensures
            email@ == self@.email,
    {
        self.email.as_str()
    }

    /// The account password hash.
    pub fn password(&self) -> (password: &[u8])
        ensures
            password@ == self@.password,
    {
        self.password.as_slice()
    }

    /// The salt the password was hashed with.
    pub fn password_salt(&self) -> (salt: &str)
        ensures
            salt@ == self@.password_salt,
    {
        self.password_salt.as_str()
    }
}

/// An account stored with the values prepared from some credentials accepts
/// those credentials: what creation stores, authentication lets in.
pub proof fn lemma_prepared_account_accepts(id: i32, email: Seq<char>, password: Seq<u8>, stored: Seq<u8>, salt: Seq<char>)
    requires
        hashed_with(stored, salt, password),
    ensures
        accepts(
            AccountView { id, email, password: stored, password_salt: salt },
            AccountCredentialsView::Basic { email, password },
        ),
{
    let phc = scrypt_phc_hash(password, salt)->0;
    encode_utf8_valid_utf8(phc);
    encode_utf8_decode_utf8(phc);
}

/// What is stored for a password is never the plaintext: the stored bytes
/// are the UTF-8 of a PHC string beginning `$scrypt$`, so they equal the
/// password only for a password that is itself such a string.
pub proof fn lemma_stored_hash_is_not_plaintext(stored: Seq<u8>, salt: Seq<char>, password: Seq<u8>)
    requires
        hashed_with(stored, salt, password),
    ensures
        valid_utf8(stored) && is_scrypt_phc(decode_utf8(stored)),
        stored == password ==> valid_utf8(password) && is_scrypt_phc(decode_utf8(password)),
{
    let phc = scrypt_phc_hash(password, salt)->0;
    encode_utf8_valid_utf8(phc);
    encode_utf8_decode_utf8(phc);
}

} // verus!
