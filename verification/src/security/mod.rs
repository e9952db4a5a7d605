pub mod auth;
pub mod policy;
