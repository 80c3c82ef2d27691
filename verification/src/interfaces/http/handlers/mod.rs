pub mod auth;
pub mod catalog;
pub mod users;
