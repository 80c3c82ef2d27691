pub mod group;
pub mod permission;
pub mod user;
