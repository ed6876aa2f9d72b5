//! The values the email templates are filled from.

use crate::user::types::User;
use vstd::prelude::*;
use vstd::string::StringExecFns;

verus! {

/// Where the welcome email sends a new user.
pub const DASHBOARD_URL: &'static str = "http://localhost:3000/dashboard/";

/// Where the update notice sends a user to look at the profile.
pub const VIEW_PROFILE_LINK: &'static str = "https://example.com/profile";

/// What a reset link starts with; the code follows.
pub const RESET_LINK_PREFIX: &'static str = "https://example.com/reset-password?code=";

/// One changed field of a record: the column and its new value.
#[derive(Debug, Clone, PartialEq, Eq)]
pub struct UpdatedField {
    pub label: &'static str,
    pub value: String,
}

/// The notice that tells a user which fields of the profile changed.
#[derive(Debug, Clone, PartialEq, Eq)]
pub struct UpdateUserEmail {
    pub username: String,
    pub view_profile_link: String,
    pub updated_fields: Vec<UpdatedField>,
    pub last_update: String,
}

/// The welcome sent to a new user.
#[derive(Debug, Clone, PartialEq, Eq)]
pub struct WelcomeEmail {
    pub username: String,
    pub dashboard_url: String,
    pub current_year: i32,
}

/// The email that carries a one-time code and the link to use it.
#[derive(Debug, Clone, PartialEq, Eq)]
pub struct ResetPasswordEmail {
    pub username: String,
    pub reset_code: String,
    pub reset_link: String,
}

impl UpdateUserEmail {
    /// The notice for a user whose profile changed in the given fields, as
    /// of the given moment.
    pub fn new(user: &User, updated_fields: Vec<UpdatedField>, last_update: String) -> (email: Self)
        ensures
            email.username == user.username,
            email.view_profile_link@ == VIEW_PROFILE_LINK@,
            email.updated_fields == updated_fields,
            email.last_update == last_update,
    {
        UpdateUserEmail {
            username: user.username.clone(),
            view_profile_link: VIEW_PROFILE_LINK.to_string(),
            updated_fields,
            last_update,
        }
    }
}

impl WelcomeEmail {
    /// The welcome for a new user, dated with the given year.
    pub fn new(user: &User, current_year: i32) -> (email: Self)
        ensures
            email.username == user.username,
            email.dashboard_url@ == DASHBOARD_URL@,
            email.current_year == current_year,
    {
        WelcomeEmail {
            username: user.username.clone(),
            dashboard_url: DASHBOARD_URL.to_string(),
            current_year,
        }
    }
}

impl ResetPasswordEmail {
    /// The reset email for a user and the code issued to them. The link is
    /// the reset page with the code as its `code` parameter.
    pub fn new(user: &User, code: &str) -> (email: Self)
        ensures
            email.username == user.username,
            email.reset_code@ == code@,
            email.reset_link@ == RESET_LINK_PREFIX@ + code@,
    {
        let mut reset_link: String = RESET_LINK_PREFIX.to_string();
        reset_link.append(code);
        ResetPasswordEmail {
            username: user.username.clone(),
            reset_code: code.to_string(),
            reset_link,
        }
    }
}

} // verus!
