//! The word record.

use vstd::prelude::*;

verus! {

/// A vocabulary entry as the store holds it. Times are microseconds since
/// the Unix epoch in UTC.
#[derive(Debug, Clone, PartialEq, Eq)]
pub struct Word {
    pub id: u128,
    pub category: String,
    pub literal: String,
    pub language: String,
    pub translated: String,
    pub created_at: i64,
    pub updated_at: i64,
    pub user_id: u128,
}

} // verus!
