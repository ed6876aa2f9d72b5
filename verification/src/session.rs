//! The session of a request: the one value an authenticated session holds.

use base64::Engine;
use vstd::prelude::*;

verus! {

/// How many bytes a session-signing key needs at the least.
pub const SESSION_KEY_LENGTH: usize = 64;

/// Why a configured secret gives no session-signing key.
#[derive(Debug, Clone, Copy, PartialEq, Eq, Structural)]
pub enum SessionKeyError {
    /// The secret is not base64.
    InvalidBase64,
    /// The secret decodes to fewer bytes than a key needs.
    TooShort,
}

#[verifier::external_type_specification]
#[verifier::external_body]
pub struct ExDecodeError(base64::DecodeError);

/// The bytes `base64` decodes a text to with the standard alphabet and
/// padding, where it decodes it.
pub uninterp spec fn base64_bytes(text: Seq<char>) -> Option<Seq<u8>>;

/// `base64::Engine::decode` on the `STANDARD` engine. Whether and to what
/// the text decodes depends on the text alone.
#[verifier::external_body]
fn base64_decode(text: &str) -> (decoded: Result<Vec<u8>, base64::DecodeError>)
    ensures
        match decoded {
            Ok(bytes) => base64_bytes(text@) == Some(bytes@),
            Err(_) => base64_bytes(text@) is None,
        },
{
    base64::engine::general_purpose::STANDARD.decode(text)
}

/// The key that the decoded secret gives.
pub open spec fn key_of(decoded: Option<Seq<u8>>) -> Result<Seq<u8>, SessionKeyError> {
    match decoded {
        None => Err(SessionKeyError::InvalidBase64),
        Some(bytes) => if bytes.len() < SESSION_KEY_LENGTH {
            Err(SessionKeyError::TooShort)
        } else {
            Ok(bytes)
        },
    }
}

/// Accepts a decoded secret as key material if it is long enough.
pub fn check_session_key(decoded: Option<Vec<u8>>) -> (key: Result<Vec<u8>, SessionKeyError>)
    ensures
        match key {
            Ok(bytes) => decoded == Some(bytes) && bytes@.len() >= SESSION_KEY_LENGTH,
            Err(error) => key_of(
                match decoded {
                    Some(bytes) => Some(bytes@),
                    None => None,
                },
            ) == Err::<Seq<u8>, SessionKeyError>(error),
        },
{
    match decoded {
        None => Err(SessionKeyError::InvalidBase64),
        Some(bytes) => if bytes.len() < SESSION_KEY_LENGTH {
            Err(SessionKeyError::TooShort)
        } else {
            Ok(bytes)
        },
    }
}

/// The session-signing key a base64 secret stands for: its decoded bytes,
/// if it decodes and to at least 64 of them.
pub fn get_session_key(secret: &str) -> (key: Result<Vec<u8>, SessionKeyError>)
    ensures
        match key {
            Ok(bytes) => key_of(base64_bytes(secret@)) == Ok::<Seq<u8>, SessionKeyError>(bytes@),
            Err(error) => key_of(base64_bytes(secret@)) == Err::<Seq<u8>, SessionKeyError>(error),
        },
{
    let decoded = match base64_decode(secret) {
        Ok(bytes) => Some(bytes),
        Err(_) => None,
    };
    check_session_key(decoded)
}

/// The key the user's id is kept under.
pub const USER_ID_KEY: &'static str = "user_id";

/// The name of the cookie that carries the session.
pub const SESSION_COOKIE: &'static str = "acme-session";

/// How many days a session lasts.
pub const SESSION_TTL_DAYS: i64 = 7;

/// The session a request arrives with and leaves with. The only entry the
/// backend uses is the id of the signed-in user.
#[derive(Debug, Clone, PartialEq, Eq)]
pub struct Session {
    pub user_id: Option<String>,
}

impl Session {
    /// Whether a user is signed in.
    pub open spec fn authenticated(self) -> bool {
        self.user_id is Some
    }

    /// The session with nothing in it.
    pub open spec fn empty() -> Session {
        Session { user_id: None }
    }

    /// The session after it has been purged.
    pub open spec fn purged(self) -> Session {
        Session::empty()
    }

    /// Purging leaves nobody signed in, whatever the session held, and
    /// purging again changes nothing.
    pub proof fn purge_is_idempotent(self)
        ensures
            !self.purged().authenticated(),
            self.purged().purged() == self.purged(),
    {
    }

    pub fn new() -> (session: Session)
        ensures
            session == Session::empty(),
    {
        Session { user_id: None }
    }

    pub fn is_authenticated(&self) -> (yes: bool)
        ensures
            yes == self.authenticated(),
    {
        self.user_id.is_some()
    }

    /// Signs the user with this id in, in place of whoever was.
    pub fn insert_user_id(&mut self, user_id: String)
        ensures
            final(self).user_id == Some(user_id),
    {
        self.user_id = Some(user_id);
    }

    /// Removes everything from the session.
    pub fn purge(&mut self)
        ensures
            *final(self) == old(self).purged(),
    {
        self.user_id = None;
    }
}

} // verus!
