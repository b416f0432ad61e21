//! Verified core of a small file-synchronisation server: configuration values,
//! access-token authentication, user administration and file bookkeeping.

pub mod text;
pub mod config;
pub mod error;
pub mod crypto;
pub mod model;
pub mod api_types;
pub mod entity;
pub mod auth;
pub mod users;
pub mod tokens;
pub mod files;
pub mod discriminators;
