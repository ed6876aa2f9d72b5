//! What issuing a one-time code asks of the store, and what its answer
//! means.

use crate::otp_code::constants::OtpCodeMessage;
use crate::otp_code::types::OtpCode;
use crate::store::{Bind, Query, StoreError};
use vstd::prelude::*;

verus! {

/// Inserts a code for a user, to expire five minutes from now.
pub const INSERT_OTP_CODE: &'static str =
    "INSERT INTO otp_codes (code, user_id, expires_at) VALUES ($1, $2::uuid, NOW() + INTERVAL '5 minutes') RETURNING *";

pub struct OtpCodeService;

impl OtpCodeService {
    /// The statement that stores a code for a user.
    pub fn create_query(code: String, user_id: u128) -> (query: Query)
        ensures
            query.sql@ == INSERT_OTP_CODE@,
            query.binds@ == seq![Bind::Text(code), Bind::Uuid(user_id)],
    {
        Query { sql: INSERT_OTP_CODE.to_string(), binds: vec![Bind::Text(code), Bind::Uuid(user_id)] }
    }

    /// The stored code, or `OtpCodeCreateFailed` where the store gave none.
    pub fn create(row: Result<OtpCode, StoreError>) -> (created: Result<OtpCode, OtpCodeMessage>)
        ensures
            created == (match row {
                Ok(otp) => Ok::<OtpCode, OtpCodeMessage>(otp),
                Err(_) => Err(OtpCodeMessage::OtpCodeCreateFailed),
            }),
    {
        match row {
            Ok(otp) => Ok(otp),
            Err(_) => Err(OtpCodeMessage::OtpCodeCreateFailed),
        }
    }
}

} // verus!
