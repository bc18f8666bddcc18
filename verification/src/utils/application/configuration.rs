//! The admin-only application configuration: the administrator's
//! credentials.

use vstd::prelude::*;

use crate::utils::application::environment::{email_address_accepts, email_is_valid};
use envconfig::Error as EnvconfigError;

verus! {

/// Any error related to the configuration and application environment.
#[derive(Debug)]
pub enum ReddytConfigError {
    /// The configuration could not be loaded from the environment.
    Envconfig(EnvconfigError),
    /// The admin email at `RYT_ADMIN_EMAIL` is not valid.
    InvalidEmail,
}

/// The application relevant environment variables.
///
/// This does not load `.env`, that must be done before loading it.
#[derive(Debug)]
pub struct ReddytConfig {
    admin_email: String,
    admin_password: String,
}

/// The values of a configuration.
pub struct ReddytConfigView {
    pub admin_email: Seq<char>,
    pub admin_password: Seq<char>,
}

impl View for ReddytConfig {
    type V = ReddytConfigView;

    closed spec fn view(&self) -> ReddytConfigView {
        ReddytConfigView { admin_email: self.admin_email@, admin_password: self.admin_password@ }
    }
}

impl ReddytConfig {
    /// A configuration holding the given values, not validated.
    pub fn new(admin_email: String, admin_password: String) -> (config: Self)
        ensures
            config@.admin_email == admin_email@,
            config@.admin_password == admin_password@,
    {
        ReddytConfig { admin_email, admin_password }
    }

    /// Validates a configuration given whether its admin email is valid:
    /// unchanged when it is, `InvalidEmail` otherwise.
    pub fn check(self, email_valid: bool) -> (res: Result<Self, ReddytConfigError>)
        ensures
            match res {
                Ok(config) => email_valid && config@ == self@,
                Err(err) => !email_valid && err is InvalidEmail,
            },
    {
        if !email_valid {
            return Err(ReddytConfigError::InvalidEmail);
        }
        Ok(self)
    }

    /// Validates a loaded configuration: the admin email, used for Basic
    /// authentication, must be a valid address.
    pub fn validated(self) -> (res: Result<Self, ReddytConfigError>)
        ensures
            match res {
                Ok(config) => email_address_accepts(self@.admin_email) && config@ == self@,
                Err(err) => !email_address_accepts(self@.admin_email) && err is InvalidEmail,
            },
    {
        let email_valid = email_is_valid(self.admin_email.as_str());
        self.check(email_valid)
    }

    /// The configured email to access the admin panel.
    pub fn admin_email(&self) -> (email: &str)
        ensures
            email@ == self@.admin_email,
    {
        self.admin_email.as_str()
    }

    /// The configured password to access the admin panel.
    pub fn admin_password(&self) -> (password: &str)
        ensures
            password@ == self@.admin_password,
    {
        self.admin_password.as_str()
    }
}

} // verus!
