//! Rows of the `users`, `access_tokens` and `files` tables.

pub mod access_token;
pub mod tracked_file;
pub mod user;
