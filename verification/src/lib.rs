//! Request-handling logic of the play-recommend web server: how rejected
//! requests are answered, how query parameters are read, how the Google
//! sign-in exchange is prepared and checked, and how uploaded database files
//! are stored.

pub mod error;
pub mod query;
pub mod detail;
pub mod oauth;
pub mod upload;
pub mod settings;
