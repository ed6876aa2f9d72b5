//! One-time codes for the password reset.

pub mod constants;
pub mod service;
pub mod types;
