pub mod auth_service;
pub mod data_catalog_service;
pub mod permission_service;
pub mod user_service;
