pub mod auth;
pub mod kms;
