pub mod auth;
pub mod clickhouse;
pub mod postgres;
