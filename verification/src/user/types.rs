//! The user record.

use vstd::prelude::*;

verus! {

/// A user as the store holds it. Ids are the 128-bit values of UUIDs, times
/// are microseconds since the Unix epoch in UTC, `settings` is a JSON text.
#[derive(Debug, Clone, PartialEq, Eq)]
pub struct User {
    pub id: u128,
    pub username: String,
    pub email: String,
    pub first_name: String,
    pub last_name: String,
    pub password_hash: String,
    pub avatar_url: Option<String>,
    pub is_active: bool,
    pub version: i32,
    pub settings: String,
    pub created_at: i64,
    pub updated_at: i64,
    pub deleted_at: Option<i64>,
    pub last_login_at: Option<i64>,
}

/// `chrono::Utc::now`, as microseconds since the Unix epoch
/// (`DateTime::timestamp_micros`). The answer is the machine's clock:
/// nothing is claimed of it. `chrono` panics where the clock stands before
/// the epoch.
#[verifier::external_body]
fn now_micros() -> i64 {
    chrono::Utc::now().timestamp_micros()
}

impl Default for User {
    /// The blank user: the nil id, empty texts, inactive, version 0, `null`
    /// settings, created and updated now.
    fn default() -> (user: User)
        ensures
            user.id == 0,
            user.username@.len() == 0,
            user.email@.len() == 0,
            user.first_name@.len() == 0,
            user.last_name@.len() == 0,
            user.password_hash@.len() == 0,
            user.avatar_url is None,
            !user.is_active,
            user.version == 0,
            user.settings@ == "null"@,
            user.deleted_at is None,
            user.last_login_at is None,
    {
        User {
            id: 0,
            username: String::new(),
            email: String::new(),
            first_name: String::new(),
            last_name: String::new(),
            password_hash: String::new(),
            avatar_url: None,
            is_active: false,
            version: 0,
            settings: "null".to_string(),
            created_at: now_micros(),
            updated_at: now_micros(),
            deleted_at: None,
            last_login_at: None,
        }
    }
}

} // verus!
