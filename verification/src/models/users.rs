//! The identity record.

use vstd::prelude::*;

verus! {

/// Whether the principal has proved control of the registered address.
#[derive(Debug, Clone, Copy, PartialEq, Eq, Structural)]
pub enum UserStatus {
    /// Registered; the address is not yet confirmed.
    Unverified,
    /// The address is confirmed.
    Active,
}

impl UserStatus {
    /// The text under which the status is stored.
    pub open spec fn label_text(self) -> Seq<char> {
        match self {
            UserStatus::Unverified => "unverified"@,
            UserStatus::Active => "active"@,
        }
    }

    /// The text under which the status is stored.
    pub fn label(self) -> (s: &'static str)
        ensures
            s@ == self.label_text(),
    {
        match self {
            UserStatus::Unverified => "unverified",
            UserStatus::Active => "active",
        }
    }
}

/// A registered principal.
#[derive(Debug)]
pub struct User {
    /// Assigned by the store.
    pub id: String,
    pub username: String,
    /// Unique among all users.
    pub email: String,
    /// A digest of the password, never the password.
    pub password_hash: String,
    /// Seconds since the epoch.
    pub created_at: i64,
    /// Seconds since the epoch of the last successful login.
    pub last_login: Option<i64>,
    pub status: UserStatus,
}

/// The mathematical content of a [`User`].
pub struct UserView {
    pub id: Seq<char>,
    pub username: Seq<char>,
    pub email: Seq<char>,
    pub password_hash: Seq<char>,
    pub created_at: int,
    pub last_login: Option<int>,
    pub status: UserStatus,
}

impl View for User {
    type V = UserView;

    open spec fn view(&self) -> UserView {
        UserView {
            id: self.id@,
            username: self.username@,
            email: self.email@,
            password_hash: self.password_hash@,
            created_at: self.created_at as int,
            last_login: match self.last_login {
                Some(t) => Some(t as int),
                None => None,
            },
            status: self.status,
        }
    }
}

impl Clone for User {
    fn clone(&self) -> (res: Self)
        ensures
            res@ == self@,
    {
        User {
            id: self.id.clone(),
            username: self.username.clone(),
            email: self.email.clone(),
            password_hash: self.password_hash.clone(),
            created_at: self.created_at,
            last_login: self.last_login,
            status: self.status,
        }
    }
}

/// What a user record is when it has just been created.
pub open spec fn new_user(
    id: Seq<char>,
    username: Seq<char>,
    email: Seq<char>,
    password_hash: Seq<char>,
    created_at: int,
) -> UserView {
    UserView {
        id,
        username,
        email,
        password_hash,
        created_at,
        last_login: None,
        status: UserStatus::Unverified,
    }
}

} // verus!
