//! The request/response contract of the Acme backend: the response envelope,
//! the validation rules of each request body, the session guard, and the
//! decisions each resource handler takes between its calls to the store, the
//! mailer and the translation service.

pub mod auth;
pub mod common;
pub mod email;
pub mod model;
pub mod otp_code;
pub mod routes;
pub mod session;
pub mod store;
pub mod user;
pub mod words;
