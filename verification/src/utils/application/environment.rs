//! The application configuration read from the environment, and its
//! validation.

use email_address::EmailAddress;
use envconfig::Error as EnvconfigError;
use sqlx::postgres::PgConnectOptions;
use std::str::FromStr;
use vstd::prelude::*;

verus! {

#[verifier::external_type_specification]
#[verifier::external_body]
pub struct ExEnvconfigError(EnvconfigError);

/// Any error related to the configuration and application environment.
#[derive(Debug)]
pub enum ReddytConfigError {
    /// The configuration could not be loaded from the environment.
    Envconfig(EnvconfigError),
    /// The admin email at `RYT_ADMIN_EMAIL` is not valid.
    InvalidEmail,
    /// `DATABASE_URL` does not hold a valid PostgreSQL database URL.
    InvalidPostgresUrl,
}

/// Whether `email_address::EmailAddress::is_valid` accepts the address.
pub uninterp spec fn email_address_accepts(address: Seq<char>) -> bool;

/// Calls `EmailAddress::is_valid`, which parses the address with the default
/// options; the result is a function of the address alone.
#[verifier::external_body]
pub(crate) fn email_is_valid(address: &str) -> (valid: bool)
    ensures
        valid == email_address_accepts(address@),
{
    EmailAddress::is_valid(address)
}

/// Whether `sqlx::postgres::PgConnectOptions::from_str` accepts the URL.
pub uninterp spec fn postgres_url_accepted(url: Seq<char>) -> bool;

/// Calls `PgConnectOptions::from_str` and keeps only whether it succeeded.
/// The options it builds read `PG*` variables of the environment for their
/// defaults, but whether it succeeds depends on the URL alone (its source
/// fails only on URL syntax and on malformed query parameters).
#[verifier::external_body]
pub(crate) fn postgres_url_is_valid(url: &str) -> (valid: bool)
    ensures
        valid == postgres_url_accepted(url@),
{
    PgConnectOptions::from_str(url).is_ok()
}

/// The application relevant environment variables.
///
/// This does not load `.env`, that must be done before loading it.
#[derive(Debug)]
pub struct ReddytConfig {
    admin_email: String,
    admin_password: String,
    database_url: String,
    migrations_path: String,
}

/// The values of a configuration.
pub struct ReddytConfigView {
    pub admin_email: Seq<char>,
    pub admin_password: Seq<char>,
    pub database_url: Seq<char>,
    pub migrations_path: Seq<char>,
}

impl View for ReddytConfig {
    type V = ReddytConfigView;

    closed spec fn view(&self) -> ReddytConfigView {
        ReddytConfigView {
            admin_email: self.admin_email@,
            admin_password: self.admin_password@,
            database_url: self.database_url@,
            migrations_path: self.migrations_path@,
        }
    }
}

/// What validation makes of a configuration, given whether its email and
/// its database URL are accepted: the email is checked first.
pub open spec fn validation_outcome(email_valid: bool, url_valid: bool) -> Option<ReddytConfigErrorKind> {
    if !email_valid {
        Some(ReddytConfigErrorKind::InvalidEmail)
    } else if !url_valid {
        Some(ReddytConfigErrorKind::InvalidPostgresUrl)
    } else {
        None
    }
}

/// Validation passes exactly when both the email and the database URL are
/// accepted; an invalid email is reported whatever the URL, and an invalid
/// URL only with a valid email.
pub proof fn lemma_validation_checks_email_first(email_valid: bool, url_valid: bool)
    ensures
        validation_outcome(email_valid, url_valid) is None <==> email_valid && url_valid,
        !email_valid ==> validation_outcome(email_valid, url_valid) == Some(ReddytConfigErrorKind::InvalidEmail),
        email_valid && !url_valid ==> validation_outcome(email_valid, url_valid) == Some(
            ReddytConfigErrorKind::InvalidPostgresUrl,
        ),
{
}

/// The kind of a configuration error.
pub enum ReddytConfigErrorKind {
    Envconfig,
    InvalidEmail,
    InvalidPostgresUrl,
}

pub open spec fn error_kind(err: ReddytConfigError) -> ReddytConfigErrorKind {
    match err {
        ReddytConfigError::Envconfig(_) => ReddytConfigErrorKind::Envconfig,
        ReddytConfigError::InvalidEmail => ReddytConfigErrorKind::InvalidEmail,
        ReddytConfigError::InvalidPostgresUrl => ReddytConfigErrorKind::InvalidPostgresUrl,
    }
}

impl ReddytConfig {
    /// A configuration holding the given values, not validated.
    pub fn new(admin_email: String, admin_password: String, database_url: String, migrations_path: String) -> (config: Self)
        ensures
            config@.admin_email == admin_email@,
            config@.admin_password == admin_password@,
            config@.database_url == database_url@,
            config@.migrations_path == migrations_path@,
    {
        ReddytConfig { admin_email, admin_password, database_url, migrations_path }
    }

    /// Validates a configuration given whether its admin email and its
    /// database URL are valid: the configuration comes back unchanged when
    /// both are, otherwise the first failing check is reported.
    pub fn check(self, email_valid: bool, url_valid: bool) -> (res: Result<Self, ReddytConfigError>)
        ensures
            match res {
                Ok(config) => validation_outcome(email_valid, url_valid) is None && config@ == self@,
                Err(err) => validation_outcome(email_valid, url_valid) == Some(error_kind(err)),
            },
            res is Ok <==> email_valid && url_valid,
            !email_valid ==> res matches Err(ReddytConfigError::InvalidEmail),
            email_valid && !url_valid ==> res matches Err(ReddytConfigError::InvalidPostgresUrl),
    {
        if !email_valid {
            return Err(ReddytConfigError::InvalidEmail);
        }
        if !url_valid {
            return Err(ReddytConfigError::InvalidPostgresUrl);
        }
        Ok(self)
    }

    /// Validates a loaded configuration, as self-hosters need to debug any
    /// misconfiguration: the admin email is used for Basic authentication,
    /// so it must be a valid address, and the database URL must be a valid
    /// PostgreSQL connection URL.
    pub fn validated(self) -> (res: Result<Self, ReddytConfigError>)
        ensures
            match res {
                Ok(config) => validation_outcome(
                    email_address_accepts(self@.admin_email),
                    postgres_url_accepted(self@.database_url),
                ) is None && config@ == self@,
                Err(err) => validation_outcome(
                    email_address_accepts(self@.admin_email),
                    postgres_url_accepted(self@.database_url),
                ) == Some(error_kind(err)),
            },
            res is Ok <==> email_address_accepts(self@.admin_email) && postgres_url_accepted(self@.database_url),
            !email_address_accepts(self@.admin_email) ==> res matches Err(ReddytConfigError::InvalidEmail),
            email_address_accepts(self@.admin_email) && !postgres_url_accepted(self@.database_url)
                ==> res matches Err(ReddytConfigError::InvalidPostgresUrl),
    {
        let email_valid = email_is_valid(self.admin_email.as_str());
        if !email_valid {
            return self.check(false, true);
        }
        let url_valid = postgres_url_is_valid(self.database_url.as_str());
        self.check(email_valid, url_valid)
    }

    /// The configured email to access the admin panel.
    pub fn admin_email(&self) -> (email: &str)
        ensures
            email@ == self@.admin_email,
    {
        self.admin_email.as_str()
    }

    /// The configured password to access the admin panel.
    pub fn admin_password(&self) -> (password: &str)
        ensures
            password@ == self@.admin_password,
    {
        self.admin_password.as_str()
    }

    /// The configured database URL.
    pub fn database_url(&self) -> (url: &str)
        ensures
            url@ == self@.database_url,
    {
        self.database_url.as_str()
    }

    /// The path to the database migration files.
    pub fn migrations_path(&self) -> (path: &str)
        ensures
            path@ == self@.migrations_path,
    {
        self.migrations_path.as_str()
    }
}

} // verus!
