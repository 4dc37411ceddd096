//! How requests to the rate-limit endpoint are authenticated.

use vstd::prelude::*;

verus! {

/// Gauge length assumed for anonymous access until the first snapshot arrives.
pub const ANONYMOUS_LIMIT: u64 = 60;

/// Gauge length assumed for authenticated access until the first snapshot arrives.
pub const AUTHENTICATED_LIMIT: u64 = 5000;

/// The credentials a fetch is made with.
#[derive(Debug, PartialEq, Eq)]
pub enum AuthType {
    /// No credentials.
    Anonymos,
    /// A user name and its password.
    Login { login: String, password: String },
    /// An access token.
    Token(String),
}

/// The credentials as text.
pub enum AuthModel {
    Anonymos,
    Login { login: Seq<char>, password: Seq<char> },
    Token(Seq<char>),
}

impl View for AuthType {
    type V = AuthModel;

    open spec fn view(&self) -> AuthModel {
        match self {
            AuthType::Anonymos => AuthModel::Anonymos,
            AuthType::Login { login, password } => AuthModel::Login {
                login: login@,
                password: password@,
            },
            AuthType::Token(token) => AuthModel::Token(token@),
        }
    }
}

impl Clone for AuthType {
    /// A copy holds the same credentials.
    fn clone(&self) -> (copy: AuthType)
        ensures
            copy == *self,
    {
        match self {
            AuthType::Anonymos => AuthType::Anonymos,
            AuthType::Login { login, password } => AuthType::Login {
                login: login.clone(),
                password: password.clone(),
            },
            AuthType::Token(token) => AuthType::Token(token.clone()),
        }
    }
}

impl AuthModel {
    /// The quota assumed before any snapshot has arrived: 60 without
    /// credentials, 5000 with any.
    pub open spec fn initial_length(self) -> u64 {
        match self {
            AuthModel::Anonymos => ANONYMOUS_LIMIT,
            _ => AUTHENTICATED_LIMIT,
        }
    }
}

impl AuthType {
    /// The length of the gauge before the first snapshot has arrived.
    pub fn initial_length(&self) -> (length: u64)
        ensures
            length == self@.initial_length(),
            self is Anonymos ==> length == 60,
            !(self is Anonymos) ==> length == 5000,
    {
        match self {
            AuthType::Anonymos => ANONYMOUS_LIMIT,
            _ => AUTHENTICATED_LIMIT,
        }
    }
}

} // verus!
