//! What signing in asks of the store, and what its answer means.

use crate::auth::constants::AuthMessage;
use crate::auth::dto::SigninDto;
use crate::common::password::{password_matches, verify_password};
use crate::store::{Bind, Query, StoreError};
use crate::user::types::User;
use vstd::prelude::*;

verus! {

pub const SELECT_USER_BY_USERNAME: &'static str = "SELECT * FROM users WHERE username = $1";

pub struct AuthService {}

impl AuthService {
    /// The statement that fetches the user who signs in.
    pub fn signin_query(credentials: &SigninDto) -> (query: Query)
        ensures
            query.sql@ == SELECT_USER_BY_USERNAME@,
            query.binds@ == seq![Bind::Text(credentials.username)],
    {
        Query {
            sql: SELECT_USER_BY_USERNAME.to_string(),
            binds: vec![Bind::Text(credentials.username.clone())],
        }
    }

    /// What signing in comes to, given the row the store found under the
    /// username and what holding the password against its hash answered:
    /// the user where the password matches, `AuthUserNotFound` where there
    /// is no row, `AuthPasswordInvalid` in every other case.
    pub open spec fn outcome(row: Result<User, StoreError>, answer: Option<bool>) -> Result<
        User,
        AuthMessage,
    > {
        match row {
            Ok(user) => if answer == Some(true) {
                Ok(user)
            } else {
                Err(AuthMessage::AuthPasswordInvalid)
            },
            Err(_) => Err(AuthMessage::AuthUserNotFound),
        }
    }

    /// What the hasher answers for the password against the hash of the row
    /// that was found.
    pub open spec fn answer_for(row: Result<User, StoreError>, password: Seq<char>) -> Option<
        bool,
    > {
        match row {
            Ok(user) => password_matches(password, user.password_hash@),
            Err(_) => None,
        }
    }

    /// Decides a sign-in from the row and the hasher's answer.
    pub fn decide(row: Result<User, StoreError>, answer: Option<bool>) -> (signed: Result<
        User,
        AuthMessage,
    >)
        ensures
            signed == Self::outcome(row, answer),
    {
        match row {
            Ok(user) => match answer {
                Some(true) => Ok(user),
                _ => Err(AuthMessage::AuthPasswordInvalid),
            },
            Err(_) => Err(AuthMessage::AuthUserNotFound),
        }
    }

    /// Signs a user in: the row the store found under the username is held
    /// against the password.
    pub fn signin(row: Result<User, StoreError>, credentials: &SigninDto) -> (signed: Result<
        User,
        AuthMessage,
    >)
        ensures
            signed == Self::outcome(row, Self::answer_for(row, credentials.password@)),
    {
        let answer = match &row {
            Ok(user) => verify_password(credentials.password.as_str(), user.password_hash.as_str()),
            Err(_) => None,
        };
        Self::decide(row, answer)
    }
}

} // verus!
