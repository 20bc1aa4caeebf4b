//! Data model: applications, compose files, middlewares and runtime status.
pub mod app;
pub mod compose;
pub mod middleware;
pub mod status;
