pub mod application;
pub mod config;
pub mod domain;
pub mod infrastructure;
pub mod interfaces;
pub mod shared;
