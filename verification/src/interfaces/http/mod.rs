pub mod extractors;
pub mod handlers;
pub mod middleware;
pub mod router;
