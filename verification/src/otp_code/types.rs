//! The one-time code record.

use vstd::prelude::*;

verus! {

/// A one-time code as the store holds it. Times are microseconds since the
/// Unix epoch in UTC.
#[derive(Debug, Clone, PartialEq, Eq)]
pub struct OtpCode {
    pub id: u128,
    pub code: String,
    pub user_id: u128,
    pub is_active: bool,
    pub expires_at: i64,
    pub created_at: i64,
    pub updated_at: i64,
    pub deleted_at: Option<i64>,
}

impl OtpCode {
    /// A code is valid only while it is active and has not expired.
    pub open spec fn valid_at(self, now: i64) -> bool {
        self.is_active && self.expires_at > now
    }

    pub fn is_valid_at(&self, now: i64) -> (yes: bool)
        ensures
            yes == self.valid_at(now),
    {
        self.is_active && self.expires_at > now
    }
}

/// Whether one of the codes belongs to the user and is valid at `now`.
pub open spec fn has_valid_code(codes: Seq<OtpCode>, user_id: u128, now: i64) -> bool {
    exists|i: int|
        0 <= i < codes.len() && (#[trigger] codes[i]).user_id == user_id && codes[i].valid_at(now)
}

/// Looks for a code of the user that is still valid at `now`. While there
/// is one, no further code is to be issued to that user.
pub fn blocks_reset(codes: &Vec<OtpCode>, user_id: u128, now: i64) -> (blocked: bool)
    ensures
        blocked == has_valid_code(codes@, user_id, now),
{
    let mut i: usize = 0;
    while i < codes.len()
        invariant
            i <= codes.len(),
            forall|k: int|
                0 <= k < i ==> !((#[trigger] codes@[k]).user_id == user_id && codes@[k].valid_at(
                    now,
                )),
        decreases codes.len() - i,
    {
        if codes[i].user_id == user_id && codes[i].is_valid_at(now) {
            return true;
        }
        i = i + 1;
    }
    false
}

} // verus!
