//! The uniform response envelope and the HTTP status that travels with it.

use crate::store::StoreError;
use vstd::prelude::*;

verus! {

/// Whether the call behind a response succeeded.
#[derive(Debug, Clone, Copy, PartialEq, Eq, Structural)]
pub enum Status {
    Success,
    Error,
}

impl Status {
    /// The status as it stands in the `status` field of a response.
    pub open spec fn name(self) -> Seq<char> {
        match self {
            Status::Success => "ok"@,
            Status::Error => "error"@,
        }
    }

    pub fn as_str(&self) -> (name: &'static str)
        ensures
            name@ == self.name(),
    {
        match self {
            Status::Success => "ok",
            Status::Error => "error",
        }
    }
}

/// A failure below the handlers.
#[derive(Debug, Clone, Copy, PartialEq, Eq, Structural)]
pub enum ApiError {
    Store(StoreError),
}

/// The HTTP statuses the endpoints answer with.
#[derive(Debug, Clone, Copy, PartialEq, Eq, Structural)]
pub enum StatusCode {
    Success,
    BadRequest,
    Unauthorized,
}

impl StatusCode {
    /// The number sent on the wire.
    pub open spec fn code(self) -> u16 {
        match self {
            StatusCode::Success => 200,
            StatusCode::BadRequest => 400,
            StatusCode::Unauthorized => 401,
        }
    }

    pub fn as_u16(self) -> (code: u16)
        ensures
            code == self.code(),
    {
        match self {
            StatusCode::Success => 200,
            StatusCode::BadRequest => 400,
            StatusCode::Unauthorized => 401,
        }
    }
}

/// The body of every response: `data` on success, a symbolic `message`, and
/// the `status` that says which of the two it is.
#[derive(Debug, Clone, PartialEq, Eq)]
pub struct ApiResult<T, E> {
    pub data: Option<T>,
    pub message: E,
    pub status: Status,
}

impl<T, E> ApiResult<T, E> {
    /// An error envelope carries no data.
    pub open spec fn well_formed(self) -> bool {
        self.status == Status::Error ==> self.data is None
    }
}

/// An envelope together with the HTTP status it is sent under.
#[derive(Debug, Clone, PartialEq, Eq)]
pub struct Response<T, M> {
    pub status: StatusCode,
    pub body: ApiResult<T, M>,
}

impl<T, M> Response<T, M> {
    /// The HTTP status and the envelope agree: 200 goes with `Status::Success`,
    /// every other status with `Status::Error` and no data.
    pub open spec fn consistent(self) -> bool {
        &&& self.body.well_formed()
        &&& (self.status == StatusCode::Success <==> self.body.status == Status::Success)
    }

    /// The error response with the given status and message.
    pub open spec fn error(status: StatusCode, message: M) -> Self {
        Response { status, body: ApiResult { data: None, message, status: Status::Error } }
    }

    /// The success response with the given status, data and message.
    pub open spec fn success(status: StatusCode, data: T, message: M) -> Self {
        Response { status, body: ApiResult { data: Some(data), message, status: Status::Success } }
    }
}

/// Builds the error envelope: no data, `Status::Error`, the message as given.
pub fn api_error<T, M>(status: StatusCode, message: M) -> (response: Response<T, M>)
    ensures
        response == Response::<T, M>::error(status, message),
        response.body.well_formed(),
        status != StatusCode::Success ==> response.consistent(),
{
    Response { status, body: ApiResult { data: None, message, status: Status::Error } }
}

/// Builds the success envelope: the data, `Status::Success`, the message as given.
pub fn api_success<T, M>(status: StatusCode, data: T, message: M) -> (response: Response<T, M>)
    ensures
        response == Response::<T, M>::success(status, data, message),
        response.body.well_formed(),
        status == StatusCode::Success ==> response.consistent(),
{
    Response { status, body: ApiResult { data: Some(data), message, status: Status::Success } }
}

} // verus!
