//! Request bodies, and the records that hang on a user.

use vstd::prelude::*;
use crate::validation::{email_shape, has_length, is_email};

verus! {

/// Which fields of a request body were refused.
#[derive(Debug, Clone, Copy, PartialEq, Eq, Structural)]
pub struct ValidationErrors {
    pub username: bool,
    pub email: bool,
    pub password: bool,
}

impl ValidationErrors {
    /// Whether any field was refused.
    pub open spec fn any(self) -> bool {
        self.username || self.email || self.password
    }

    /// Whether no field was refused.
    pub fn is_empty(&self) -> (r: bool)
        ensures
            r == !self.any(),
    {
        !self.username && !self.email && !self.password
    }
}

/// What is said of a refused user name.
pub fn username_message() -> (s: &'static str)
    ensures
        s@ == "Username must be between 3 and 50 characters"@,
{
    "Username must be between 3 and 50 characters"
}

/// What is said of a refused address.
pub fn email_message() -> (s: &'static str)
    ensures
        s@ == "Invalid email address"@,
{
    "Invalid email address"
}

/// What is said of a refused password.
pub fn password_message() -> (s: &'static str)
    ensures
        s@ == "Password must be between 6 and 50 characters"@,
{
    "Password must be between 6 and 50 characters"
}

/// Whether a user name has an accepted length: 3 to 50 characters.
pub open spec fn username_ok(username: Seq<char>) -> bool {
    3 <= username.len() <= 50
}

/// Whether a password has an accepted length: 6 to 50 characters.
pub open spec fn password_ok(password: Seq<char>) -> bool {
    6 <= password.len() <= 50
}

/// The fields of a registration that break a format rule.
pub open spec fn register_refused(
    username: Seq<char>,
    email: Seq<char>,
    password: Seq<char>,
) -> ValidationErrors {
    ValidationErrors {
        username: !username_ok(username),
        email: !email_shape(email),
        password: !password_ok(password),
    }
}

/// The fields of a login that break a format rule. There is no user name.
pub open spec fn login_refused(email: Seq<char>, password: Seq<char>) -> ValidationErrors {
    ValidationErrors {
        username: false,
        email: !email_shape(email),
        password: !password_ok(password),
    }
}

/// Whether a password has an accepted length.
pub fn password_is_acceptable(password: &str) -> (ok: bool)
    ensures
        ok == password_ok(password@),
{
    has_length(password, 6, 50)
}

/// The body of a registration request.
#[derive(Debug)]
pub struct RegisterInput {
    pub username: String,
    pub email: String,
    pub password: String,
}

impl RegisterInput {
    /// The fields that break a format rule.
    pub open spec fn refused(&self) -> ValidationErrors {
        register_refused(self.username@, self.email@, self.password@)
    }

    /// Holds the body to the format rules, and names every field that breaks
    /// one.
    pub fn validate(&self) -> (r: Result<(), ValidationErrors>)
        ensures
            match r {
                Ok(_) => !self.refused().any(),
                Err(e) => e == self.refused() && e.any(),
            },
    {
        let errors = ValidationErrors {
            username: !has_length(self.username.as_str(), 3, 50),
            email: !is_email(self.email.as_str()),
            password: !has_length(self.password.as_str(), 6, 50),
        };
        if errors.is_empty() {
            Ok(())
        } else {
            Err(errors)
        }
    }
}

/// The body of a login request.
#[derive(Debug)]
pub struct LoginInput {
    pub email: String,
    pub password: String,
}

impl LoginInput {
    /// The fields that break a format rule. There is no user name.
    pub open spec fn refused(&self) -> ValidationErrors {
        login_refused(self.email@, self.password@)
    }

    /// Holds the body to the format rules, and names every field that breaks
    /// one.
    pub fn validate(&self) -> (r: Result<(), ValidationErrors>)
        ensures
            match r {
                Ok(_) => !self.refused().any(),
                Err(e) => e == self.refused() && e.any(),
            },
    {
        let errors = ValidationErrors {
            username: false,
            email: !is_email(self.email.as_str()),
            password: !has_length(self.password.as_str(), 6, 50),
        };
        if errors.is_empty() {
            Ok(())
        } else {
            Err(errors)
        }
    }
}

/// The signing key of one user.
#[derive(Debug)]
pub struct Secret {
    pub id: String,
    /// The user that owns the key.
    pub user_id: String,
    /// Random text; not derived from the password.
    pub key_material: String,
}

/// The mathematical content of a [`Secret`].
pub struct SecretView {
    pub id: Seq<char>,
    pub user_id: Seq<char>,
    pub key_material: Seq<char>,
}

impl View for Secret {
    type V = SecretView;

    open spec fn view(&self) -> SecretView {
        SecretView { id: self.id@, user_id: self.user_id@, key_material: self.key_material@ }
    }
}

impl Clone for Secret {
    fn clone(&self) -> (res: Self)
        ensures
            res@ == self@,
    {
        Secret {
            id: self.id.clone(),
            user_id: self.user_id.clone(),
            key_material: self.key_material.clone(),
        }
    }
}

/// A one-time credential sent to the registered address.
#[derive(Debug)]
pub struct VerificationToken {
    pub user_id: String,
    pub token: String,
    /// Seconds since the epoch.
    pub expires_at: i64,
}

/// A one-time credential for setting a new password. It has the shape and
/// the life of a [`VerificationToken`] and a table of its own.
pub type PasswordResetToken = VerificationToken;

/// The mathematical content of a [`VerificationToken`].
pub struct VerificationTokenView {
    pub user_id: Seq<char>,
    pub token: Seq<char>,
    pub expires_at: int,
}

impl View for VerificationToken {
    type V = VerificationTokenView;

    open spec fn view(&self) -> VerificationTokenView {
        VerificationTokenView {
            user_id: self.user_id@,
            token: self.token@,
            expires_at: self.expires_at as int,
        }
    }
}

impl Clone for VerificationToken {
    fn clone(&self) -> (res: Self)
        ensures
            res@ == self@,
    {
        VerificationToken {
            user_id: self.user_id.clone(),
            token: self.token.clone(),
            expires_at: self.expires_at,
        }
    }
}

/// The record of a refresh token that is in force.
#[derive(Debug)]
pub struct Session {
    pub user_id: String,
    pub refresh_token: String,
    /// Seconds since the epoch.
    pub expires_at: i64,
}

/// The mathematical content of a [`Session`].
pub struct SessionView {
    pub user_id: Seq<char>,
    pub refresh_token: Seq<char>,
    pub expires_at: int,
}

impl View for Session {
    type V = SessionView;

    open spec fn view(&self) -> SessionView {
        SessionView {
            user_id: self.user_id@,
            refresh_token: self.refresh_token@,
            expires_at: self.expires_at as int,
        }
    }
}

impl Clone for Session {
    fn clone(&self) -> (res: Self)
        ensures
            res@ == self@,
    {
        Session {
            user_id: self.user_id.clone(),
            refresh_token: self.refresh_token.clone(),
            expires_at: self.expires_at,
        }
    }
}

} // verus!
