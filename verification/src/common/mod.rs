//! What every resource shares: the response envelope, the response codes,
//! the validation rules, the password hasher and the code generator.

pub mod api_res;
pub mod generators;
pub mod message;
pub mod password;
pub mod validators;
