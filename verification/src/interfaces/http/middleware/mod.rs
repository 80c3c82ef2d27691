pub mod auth;
pub mod permission;
